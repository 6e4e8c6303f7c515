//! The executable machine: memory, registers, display and keypad, driven one
//! instruction per cycle.

use vstd::prelude::*;
use crate::drawing::{
    collided_so_far, lemma_collision_step, lemma_draw_complete, lemma_draw_skip,
    lemma_draw_started, partly_drawn,
};
use crate::error::Chip8Error;
use crate::model::{
    first_pressed, font_table, is_first_pressed, lemma_first_pressed_unique, wrap_address,
    MachineState,
};
use crate::opcode::Opcode;
use crate::random::random_byte;
use crate::quirks::QuirkConfig;

verus! {

/// A CHIP-8 virtual machine.
///
/// Its state as a mathematical value is `self@`; every method says how it
/// changes that value in terms of the functions of [`MachineState`].
pub struct Chip8 {
    memory: [u8; 4096],
    registers: [u8; 16],
    index_register: u16,
    program_counter: u16,
    stack: Vec<u16>,
    display: [[bool; 64]; 32],
    input: [bool; 16],
    delay_timer: u8,
    sound_timer: u8,
    quirk_config: QuirkConfig,
    blocking_on_draw: bool,
    blocking_input: CapturedKey,
    fault: Option<Chip8Error>,
}

/// The key that `FX0A` waits on: none, or an index that names one of the
/// sixteen keys.
struct CapturedKey {
    key: Option<u8>,
}

impl CapturedKey {
    #[verifier::type_invariant]
    spec fn names_a_key(self) -> bool {
        self.key matches Some(key) ==> key < 16
    }

    closed spec fn view(&self) -> Option<u8> {
        self.key
    }

    fn none() -> (captured: CapturedKey)
        ensures
            captured@ == None::<u8>,
    {
        CapturedKey { key: None }
    }

    fn some(key: u8) -> (captured: CapturedKey)
        requires
            key < 16,
        ensures
            captured@ == Some(key),
    {
        CapturedKey { key: Some(key) }
    }

    fn get(&self) -> (key: Option<u8>)
        ensures
            key == self@,
            key matches Some(index) ==> index < 16,
    {
        proof {
            use_type_invariant(self);
        }
        self.key
    }
}

/// A pixel grid as a sequence of rows.
pub open spec fn display_view(display: [[bool; 64]; 32]) -> Seq<Seq<bool>> {
    Seq::new(32, |row: int| Seq::new(64, |column: int| display[row][column]))
}

/// Memory while `FX55` runs: the first `count` registers stored from `I` on.
spec fn stored_registers(s: MachineState, count: int) -> Seq<u8> {
    Seq::new(
        4096,
        |address: int|
            {
                let offset = wrap_address(address - s.index_register);
                if offset < count {
                    s.registers[offset]
                } else {
                    s.memory[address]
                }
            },
    )
}

/// Registers while `FX65` runs: the first `count` loaded from `I` on.
spec fn loaded_registers(s: MachineState, count: int) -> Seq<u8> {
    Seq::new(
        16,
        |index: int|
            if index < count {
                s.byte_at(s.index_register + index)
            } else {
                s.registers[index]
            },
    )
}

impl View for Chip8 {
    type V = MachineState;

    closed spec fn view(&self) -> MachineState {
        MachineState {
            memory: self.memory@,
            registers: self.registers@,
            index_register: self.index_register,
            program_counter: self.program_counter,
            stack: self.stack@,
            display: display_view(self.display),
            input: self.input@,
            delay_timer: self.delay_timer,
            sound_timer: self.sound_timer,
            quirk_config: self.quirk_config,
            blocking_on_draw: self.blocking_on_draw,
            blocking_input: self.blocking_input@,
            fault: self.fault,
        }
    }
}

impl Chip8 {
    /// A machine with both quirks off and no program loaded.
    pub fn new() -> (chip8: Chip8)
        ensures
            chip8@ == MachineState::initial(QuirkConfig::off()),
            chip8@.wf(),
    {
        Chip8::with_quirks(QuirkConfig::new())
    }

    /// A machine with the given quirks and no program loaded.
    pub fn with_quirks(quirk_config: QuirkConfig) -> (chip8: Chip8)
        ensures
            chip8@ == MachineState::initial(quirk_config),
            chip8@.wf(),
    {
        let chip8 = Chip8 {
            memory: [0; 4096],
            registers: [0; 16],
            index_register: 0,
            program_counter: 0x200,
            stack: Vec::new(),
            display: [[false; 64]; 32],
            input: [false; 16],
            delay_timer: 0,
            sound_timer: 0,
            quirk_config,
            blocking_on_draw: false,
            blocking_input: CapturedKey::none(),
            fault: None,
        };
        assert(chip8@ =~~= MachineState::initial(quirk_config));
        chip8
    }

    /// One cycle: nothing while the machine is halted or waits for the tick
    /// after a draw; otherwise the instruction at the program counter is
    /// fetched, the counter moves past it, and the instruction is performed.
    /// `CXNN` takes its byte from the operating system's random source and
    /// halts the machine if the source fails.
    pub fn cycle(&mut self)
        ensures
            !old(self)@.draws_random() ==> final(self)@ == old(self)@.cycle(None),
            old(self)@.draws_random() ==> exists|draw: Option<u8>|
                final(self)@ == old(self)@.cycle(draw),
            final(self)@.wf(),
    {
        proof {
            use_type_invariant(&self.blocking_input);
        }
        if self.fault.is_some() || self.blocking_on_draw {
            return ;
        }
        let instruction = self.fetch_instruction();
        let opcode = Opcode::from_instruction(instruction);
        self.program_counter = self.program_counter.wrapping_add(2);
        let draw = if opcode.opcode == 0xC {
            random_byte()
        } else {
            None
        };
        self.execute(instruction, draw);
        assert(self@ == old(self)@.cycle(draw));
    }

    /// Performs the instruction word `instruction` on a machine whose program
    /// counter has already moved past it, whether or not the machine is
    /// halted or waits after a draw. `draw` is the byte that `CXNN` stores,
    /// masked, or `None` when there is none to give; no other instruction
    /// looks at it. A word that matches no instruction halts the machine.
    pub fn execute(&mut self, instruction: u16, draw: Option<u8>)
        ensures
            final(self)@ == old(self)@.execute(Opcode::decode(instruction), draw),
            final(self)@.wf(),
    {
        let opcode = Opcode::from_instruction(instruction);
        proof {
            Opcode::lemma_decode_ranges(instruction);
            reveal(MachineState::execute);
        }
        match opcode {
            Opcode { opcode: 0x1, nnn, .. } => self.set_program_counter(nnn),
            Opcode { opcode: 0x2, nnn, .. } => self.jump_sub(nnn),
            Opcode { opcode: 0x3, x, nn, .. } => self.value_conditional_skip(x, nn, false),
            Opcode { opcode: 0x4, x, nn, .. } => self.value_conditional_skip(x, nn, true),
            Opcode { opcode: 0x5, n: 0x0, x, y, .. } => self.register_conditional_skip(x, y, false),
            Opcode { opcode: 0x6, x, nn, .. } => {
                let _ = self.set_v_register(x, nn);
            },
            Opcode { opcode: 0x7, x, nn, .. } => {
                let _ = self.add_v_register(x, nn);
            },
            Opcode { opcode: 0x8, n: 0x0, x, y, .. } => self.register_copy(x, y),
            Opcode { opcode: 0x8, n: 0x1, x, y, .. } => self.register_or(x, y),
            Opcode { opcode: 0x8, n: 0x2, x, y, .. } => self.register_and(x, y),
            Opcode { opcode: 0x8, n: 0x3, x, y, .. } => self.register_xor(x, y),
            Opcode { opcode: 0x8, n: 0x4, x, y, .. } => self.register_add(x, y),
            Opcode { opcode: 0x8, n: 0x5, x, y, .. } => self.register_sub(x, y, false),
            Opcode { opcode: 0x8, n: 0x6, x, y, .. } => self.register_shift(x, y, false),
            Opcode { opcode: 0x8, n: 0x7, x, y, .. } => self.register_sub(x, y, true),
            Opcode { opcode: 0x8, n: 0xE, x, y, .. } => self.register_shift(x, y, true),
            Opcode { opcode: 0x9, n: 0x0, x, y, .. } => self.register_conditional_skip(x, y, true),
            Opcode { opcode: 0xA, nnn, .. } => self.set_index_register(nnn),
            Opcode { opcode: 0xB, nnn, .. } => self.jump_offset(nnn),
            Opcode { opcode: 0xC, x, nn, .. } => self.set_register_random(x, nn, draw),
            Opcode { opcode: 0xD, x, y, n, .. } => self.draw_sprite(x, y, n),
            Opcode { opcode: 0xE, nn: 0x9E, x, .. } => self.input_conditional_skip(x, false),
            Opcode { opcode: 0xE, nn: 0xA1, x, .. } => self.input_conditional_skip(x, true),
            Opcode { opcode: 0xF, nn: 0x07, x, .. } => self.get_delay_timer(x),
            Opcode { opcode: 0xF, nn: 0x0A, x, .. } => self.wait_for_input(x),
            Opcode { opcode: 0xF, nn: 0x15, x, .. } => self.set_delay_timer(x),
            Opcode { opcode: 0xF, nn: 0x18, x, .. } => self.set_sound_timer(x),
            Opcode { opcode: 0xF, nn: 0x1E, x, .. } => self.add_index_register(x),
            Opcode { opcode: 0xF, nn: 0x29, x, .. } => self.index_to_font_char(x),
            Opcode { opcode: 0xF, nn: 0x33, x, .. } => self.convert_to_bcd(x),
            Opcode { opcode: 0xF, nn: 0x55, x, .. } => self.register_to_memory(x),
            Opcode { opcode: 0xF, nn: 0x65, x, .. } => self.memory_to_register(x),
            Opcode { instruction: 0x00E0, .. } => self.clear_screen(),
            Opcode { instruction: 0x00EE, .. } => self.return_sub(),
            Opcode { instruction, .. } => self.unsupported(instruction),
        }
        proof {
            use_type_invariant(&self.blocking_input);
        }
    }

    /// One tick of the 60 Hz clock: each timer above zero loses one, and a
    /// machine that waits after a draw may go on.
    pub fn update(&mut self)
        ensures
            final(self)@ == old(self)@.update(),
            final(self)@.wf(),
    {
        if self.delay_timer > 0 {
            self.delay_timer -= 1;
        }
        if self.sound_timer > 0 {
            self.sound_timer -= 1;
        }
        self.blocking_on_draw = false;
        proof {
            use_type_invariant(&self.blocking_input);
        }
    }

    /// Halts on a word that matches no instruction.
    fn unsupported(&mut self, instruction: u16)
        ensures
            final(self)@ == old(self)@.unsupported(instruction),
    {
        self.fault = Some(
            Chip8Error::UnsupportedInstruction {
                raw: instruction,
                pc: self.program_counter.wrapping_sub(2),
            },
        );
    }

    /// `FX15`.
    fn set_delay_timer(&mut self, source_register: u8)
        requires
            source_register < 16,
        ensures
            final(self)@ == old(self)@.set_delay_timer(source_register),
    {
        self.delay_timer = self.registers[source_register as usize];
    }

    /// `FX18`.
    fn set_sound_timer(&mut self, source_register: u8)
        requires
            source_register < 16,
        ensures
            final(self)@ == old(self)@.set_sound_timer(source_register),
    {
        self.sound_timer = self.registers[source_register as usize];
    }

    /// `FX07`.
    fn get_delay_timer(&mut self, target_register: u8)
        requires
            target_register < 16,
        ensures
            final(self)@ == old(self)@.get_delay_timer(target_register),
    {
        self.registers[target_register as usize] = self.delay_timer;
    }

    /// `FX1E`.
    fn add_index_register(&mut self, target_register: u8)
        requires
            target_register < 16,
        ensures
            final(self)@ == old(self)@.add_index_register(target_register),
    {
        self.index_register = self.index_register.wrapping_add(
            self.registers[target_register as usize] as u16,
        );
    }

    /// The lowest-numbered key that is held down, if any is.
    fn first_pressed_key(&self) -> (key: Option<u8>)
        ensures
            key == first_pressed(self@.input),
            key matches Some(index) ==> index < 16,
    {
        let mut index: u8 = 0;
        while index < 16
            invariant
                index <= 16,
                forall|lower: int| 0 <= lower < index ==> !#[trigger] self.input@[lower],
            decreases 16 - index,
        {
            if self.input[index as usize] {
                proof {
                    assert(is_first_pressed(self.input@, index as int));
                    let chosen = choose|key: int| is_first_pressed(self.input@, key);
                    lemma_first_pressed_unique(self.input@, chosen, index as int);
                }
                return Some(index);
            }
            index += 1;
        }
        None
    }

    /// `FX0A`.
    fn wait_for_input(&mut self, target_register: u8)
        requires
            target_register < 16,
        ensures
            final(self)@ == old(self)@.wait_for_input(target_register),
    {
        match self.blocking_input.get() {
            None => {
                let first_input = self.first_pressed_key();
                match first_input {
                    Some(index) => self.blocking_input = CapturedKey::some(index),
                    None => self.program_counter = self.program_counter.wrapping_sub(2),
                }
            },
            Some(input) => {
                if self.input[input as usize] == false {
                    self.registers[target_register as usize] = input;
                    self.blocking_input = CapturedKey::none();
                } else {
                    self.program_counter = self.program_counter.wrapping_sub(2);
                }
            },
        }
    }

    /// `CXNN`, given what the random source offered.
    fn set_register_random(&mut self, target_register: u8, mod_and: u8, draw: Option<u8>)
        requires
            target_register < 16,
        ensures
            final(self)@ == old(self)@.set_register_random(target_register, mod_and, draw),
    {
        match draw {
            Some(byte) => self.registers[target_register as usize] = byte & mod_and,
            None => self.fault = Some(Chip8Error::RandomSourceUnavailable),
        }
    }

    /// `EX9E` and, with `inverse`, `EXA1`.
    fn input_conditional_skip(&mut self, source_register: u8, inverse: bool)
        requires
            source_register < 16,
        ensures
            final(self)@ == old(self)@.input_conditional_skip(source_register, inverse),
    {
        let input = self.registers[source_register as usize] % 16;
        if self.input[input as usize] ^ inverse {
            self.program_counter = self.program_counter.wrapping_add(2);
        }
    }

    /// `FX55`.
    fn register_to_memory(&mut self, target_register: u8)
        requires
            target_register < 16,
        ensures
            final(self)@ == old(self)@.register_to_memory(target_register),
    {
        let ghost before = old(self)@;
        let mut i: u8 = 0;
        while i <= target_register
            invariant
                before == old(self)@,
                target_register < 16,
                i <= target_register + 1,
                self.memory@ == stored_registers(before, i as int),
                self@ == (MachineState { memory: self.memory@, ..before }),
            decreases target_register + 1 - i,
        {
            let address = (self.index_register as usize + i as usize) % 4096;
            self.memory[address] = self.registers[i as usize];
            i += 1;
            assert(self.memory@ =~= stored_registers(before, i as int));
        }
        if self.quirk_config.memory_index_register_increase {
            self.index_register = self.index_register.wrapping_add(target_register as u16 + 1);
        }
        assert(self@.memory =~= old(self)@.register_to_memory(target_register).memory);
    }

    /// `FX65`.
    fn memory_to_register(&mut self, target_register: u8)
        requires
            target_register < 16,
        ensures
            final(self)@ == old(self)@.memory_to_register(target_register),
    {
        let ghost before = old(self)@;
        let mut i: u8 = 0;
        while i <= target_register
            invariant
                before == old(self)@,
                target_register < 16,
                i <= target_register + 1,
                self.registers@ == loaded_registers(before, i as int),
                self@ == (MachineState { registers: self.registers@, ..before }),
            decreases target_register + 1 - i,
        {
            let address = (self.index_register as usize + i as usize) % 4096;
            self.registers[i as usize] = self.memory[address];
            i += 1;
            assert(self.registers@ =~= loaded_registers(before, i as int));
        }
        if self.quirk_config.memory_index_register_increase {
            self.index_register = self.index_register.wrapping_add(target_register as u16 + 1);
        }
        assert(self@.registers =~= old(self)@.memory_to_register(target_register).registers);
    }

    /// Latches key `input` as held or released. Keys are numbered `0` to
    /// `0xF`; any other index is refused and changes nothing.
    pub fn set_input(&mut self, input: u8, pressed: bool) -> (result: Result<(), Chip8Error>)
        ensures
            final(self)@ == old(self)@.set_input(input, pressed),
            final(self)@.wf(),
            input <= 0xF ==> result == Ok::<(), Chip8Error>(()),
            input > 0xF ==> result == Err::<(), Chip8Error>(Chip8Error::KeyIndexOutOfRange),
    {
        proof {
            use_type_invariant(&self.blocking_input);
        }
        if input > 0xF {
            return Err(Chip8Error::KeyIndexOutOfRange);
        }
        self.input[input as usize] = pressed;
        Ok(())
    }

    /// `FX33`.
    fn convert_to_bcd(&mut self, target_register: u8)
        requires
            target_register < 16,
        ensures
            final(self)@ == old(self)@.convert_to_bcd(target_register),
    {
        let value = self.registers[target_register as usize];

        let hundreds = value / 100;
        let tens = (value / 10) % 10;
        let ones = value % 10;

        let base = self.index_register as usize;
        self.memory[base % 4096] = hundreds;
        self.memory[(base + 1) % 4096] = tens;
        self.memory[(base + 2) % 4096] = ones;
    }

    /// `8XY0`.
    fn register_copy(&mut self, target_register: u8, source_register: u8)
        requires
            target_register < 16,
            source_register < 16,
        ensures
            final(self)@ == old(self)@.register_copy(target_register, source_register),
    {
        self.registers[target_register as usize] = self.registers[source_register as usize];
    }

    /// `8XY1`.
    fn register_or(&mut self, target_register: u8, source_register: u8)
        requires
            target_register < 16,
            source_register < 16,
        ensures
            final(self)@ == old(self)@.register_or(target_register, source_register),
    {
        self.registers[0xF] = 0;
        self.registers[target_register as usize] = self.registers[target_register as usize]
            | self.registers[source_register as usize];
    }

    /// `8XY3`.
    fn register_xor(&mut self, target_register: u8, source_register: u8)
        requires
            target_register < 16,
            source_register < 16,
        ensures
            final(self)@ == old(self)@.register_xor(target_register, source_register),
    {
        self.registers[0xF] = 0;
        self.registers[target_register as usize] = self.registers[target_register as usize]
            ^ self.registers[source_register as usize];
    }

    /// `8XY2`.
    fn register_and(&mut self, target_register: u8, source_register: u8)
        requires
            target_register < 16,
            source_register < 16,
        ensures
            final(self)@ == old(self)@.register_and(target_register, source_register),
    {
        self.registers[0xF] = 0;
        self.registers[target_register as usize] = self.registers[target_register as usize]
            & self.registers[source_register as usize];
    }

    /// `8XY6` and, with `inverse`, `8XYE`.
    fn register_shift(&mut self, target_register: u8, source_register: u8, inverse: bool)
        requires
            target_register < 16,
            source_register < 16,
        ensures
            final(self)@ == old(self)@.register_shift(target_register, source_register, inverse),
    {
        let bit_out: u8;

        if self.quirk_config.source_vy_bitshift {
            self.registers[target_register as usize] = self.registers[source_register as usize];
        }
        let operand = self.registers[target_register as usize];

        if inverse {
            bit_out = (operand >> 7) & 1;
            self.registers[target_register as usize] = operand << 1;
            assert((operand >> 7) & 1 == (if operand >= 128 { 1u8 } else { 0u8 })) by (bit_vector);
            assert(operand << 1 == (operand * 2) % 256) by (bit_vector);
        } else {
            bit_out = operand & 1;
            self.registers[target_register as usize] = operand >> 1;
            assert(operand & 1 == operand % 2) by (bit_vector);
            assert(operand >> 1 == operand / 2) by (bit_vector);
        }
        self.registers[0xF] = bit_out;
        assert(self@.registers =~= old(self)@.register_shift(
            target_register,
            source_register,
            inverse,
        ).registers);
    }

    /// `8XY4`.
    fn register_add(&mut self, target_register: u8, source_register: u8)
        requires
            target_register < 16,
            source_register < 16,
        ensures
            final(self)@ == old(self)@.register_add(target_register, source_register),
    {
        let x = self.registers[target_register as usize];
        let y = self.registers[source_register as usize];

        self.registers[target_register as usize] = x.wrapping_add(y);

        if y > (255 - x) {
            self.registers[0xF] = 1;
        } else {
            self.registers[0xF] = 0;
        }
    }

    /// `8XY5` and, with `swap`, `8XY7`.
    fn register_sub(&mut self, target_register: u8, source_register: u8, swap: bool)
        requires
            target_register < 16,
            source_register < 16,
        ensures
            final(self)@ == old(self)@.register_sub(target_register, source_register, swap),
    {
        let mut x = self.registers[target_register as usize];
        let mut y = self.registers[source_register as usize];

        if swap {
            std::mem::swap(&mut x, &mut y);
        }
        self.registers[target_register as usize] = x.wrapping_sub(y);

        if x >= y {
            self.registers[0xF] = 1;
        } else {
            self.registers[0xF] = 0;
        }
    }

    /// `00EE`.
    fn return_sub(&mut self)
        ensures
            final(self)@ == old(self)@.return_sub(),
    {
        if let Some(position) = self.stack.pop() {
            self.set_program_counter(position);
        }
    }

    /// `2NNN`.
    fn jump_sub(&mut self, position: u16)
        ensures
            final(self)@ == old(self)@.jump_sub(position),
    {
        self.stack.push(self.program_counter);
        self.set_program_counter(position);
    }

    /// `BNNN`.
    fn jump_offset(&mut self, position: u16)
        ensures
            final(self)@ == old(self)@.jump_offset(position),
    {
        let target = position.wrapping_add(self.registers[0] as u16);
        self.set_program_counter(target);
    }

    /// `5XY0` and, with `inverse`, `9XY0`.
    fn register_conditional_skip(&mut self, register_a: u8, register_b: u8, inverse: bool)
        requires
            register_a < 16,
            register_b < 16,
        ensures
            final(self)@ == old(self)@.register_conditional_skip(register_a, register_b, inverse),
    {
        let vx = self.registers[register_a as usize];
        let vy = self.registers[register_b as usize];

        if (vx == vy) ^ inverse {
            self.program_counter = self.program_counter.wrapping_add(2);
        }
    }

    /// `3XNN` and, with `inverse`, `4XNN`.
    fn value_conditional_skip(&mut self, register: u8, value: u8, inverse: bool)
        requires
            register < 16,
        ensures
            final(self)@ == old(self)@.value_conditional_skip(register, value, inverse),
    {
        let vx = self.registers[register as usize];

        if (vx == value) ^ inverse {
            self.program_counter = self.program_counter.wrapping_add(2);
        }
    }

    /// `DXYN`.
    fn draw_sprite(&mut self, x: u8, y: u8, height: u8)
        requires
            x < 16,
            y < 16,
        ensures
            final(self)@ == old(self)@.draw_sprite(x, y, height),
    {
        let left = self.registers[x as usize] % 64;
        let top = self.registers[y as usize] % 32;
        self.registers[0xF] = 0;

        let ghost before = old(self)@;
        let ghost (l, t, h) = (left as int, top as int, height as int);
        proof {
            lemma_draw_started(before, l, t, h);
            lemma_draw_skip(before, l, t, h, 0, 0, t, 0);
        }
        let mut i: u8 = 0;
        let mut row: u8 = top;
        while i < height && row < 32
            invariant
                before == old(self)@,
                (l, t, h) == (left as int, top as int, height as int),
                left < 64,
                top < 32,
                row == top + i,
                i <= height,
                row <= 32,
                display_view(self.display) == partly_drawn(before, l, t, h, row as int, 0),
                self.registers@ == before.with_flag(
                    collided_so_far(before, l, t, h, row as int, 0),
                ).registers,
                self@ == (MachineState {
                    display: display_view(self.display),
                    registers: self.registers@,
                    ..before
                }),
            decreases height - i,
        {
            let address = (self.index_register as usize + i as usize) % 4096;
            let sprite = self.memory[address];
            let mut j: u8 = 0;
            let mut column: u8 = left;
            proof {
                lemma_draw_skip(before, l, t, h, row as int, 0, row as int, l);
            }
            while j < 8 && column < 64
                invariant
                    before == old(self)@,
                    (l, t, h) == (left as int, top as int, height as int),
                    left < 64,
                    top < 32,
                    row == top + i,
                    i < height,
                    row < 32,
                    column == left + j,
                    j <= 8,
                    column <= 64,
                    sprite == before.byte_at(before.index_register + i),
                    display_view(self.display) == partly_drawn(
                        before, l, t, h, row as int, column as int,
                    ),
                    self.registers@ == before.with_flag(
                        collided_so_far(before, l, t, h, row as int, column as int),
                    ).registers,
                    self@ == (MachineState {
                        display: display_view(self.display),
                        registers: self.registers@,
                        ..before
                    }),
                decreases 8 - j,
            {
                let bit = (sprite >> (7 - j)) & 1;
                let bit_bool = bit != 0;
                let ghost shown = self.display;
                let ghost (r, c) = (row as int, column as int);
                proof {
                    let shifted = sprite >> ((7 - j) as u8);
                    assert(shifted & 1 == 0 || shifted & 1 == 1) by (bit_vector);
                    assert(bit_bool == before.sprite_pixel(l, t, h, r, c));
                    assert(display_view(shown)[r][c] == shown[r][c]);
                    assert(shown[r][c] == before.pixel(r, c));
                    lemma_collision_step(before, l, t, h, r, c);
                }
                if self.display[row as usize][column as usize] && bit_bool {
                    self.registers[0xF] = 1;
                }
                self.display[row as usize][column as usize] ^= bit_bool;
                proof {
                    let target = partly_drawn(before, l, t, h, r, c + 1);
                    assert forall|pr: int, pc: int| 0 <= pr < 32 && 0 <= pc < 64 implies display_view(
                        self.display,
                    )[pr][pc] == target[pr][pc] by {
                        assert(display_view(shown)[pr][pc] == shown[pr][pc]);
                        assert(display_view(self.display)[pr][pc] == self.display[pr][pc]);
                        if pr == r && pc == c {
                            assert(self.display[pr][pc] == (shown[pr][pc] != bit_bool));
                        } else {
                            assert(self.display[pr][pc] == shown[pr][pc]);
                        }
                    }
                    assert(display_view(self.display) =~~= target);
                    assert(self.registers@ =~= before.with_flag(
                        collided_so_far(before, l, t, h, r, c + 1),
                    ).registers);
                }
                column += 1;
                j += 1;
            }
            proof {
                lemma_draw_skip(before, l, t, h, row as int, column as int, row + 1, 0);
            }
            row += 1;
            i += 1;
        }
        proof {
            lemma_draw_complete(before, l, t, h, row as int);
        }
        self.blocking_on_draw = true;
        assert(self@ =~~= old(self)@.draw_sprite(x, y, height));
    }

    /// `1NNN`.
    fn set_program_counter(&mut self, value: u16)
        ensures
            final(self)@ == old(self)@.set_program_counter(value),
    {
        self.program_counter = value;
    }

    /// Stores `value` in register `register`. Registers are numbered `0` to
    /// `0xF`; any other index is refused and changes nothing.
    pub fn set_v_register(&mut self, register: u8, value: u8) -> (result: Result<(), Chip8Error>)
        ensures
            final(self)@ == old(self)@.set_v_register(register, value),
            final(self)@.wf(),
            register <= 0xF ==> result == Ok::<(), Chip8Error>(()),
            register > 0xF ==> result == Err::<(), Chip8Error>(Chip8Error::InvalidRegisterIndex),
    {
        proof {
            use_type_invariant(&self.blocking_input);
        }
        if register > 0xF {
            return Err(Chip8Error::InvalidRegisterIndex);
        }
        self.registers[register as usize] = value;
        Ok(())
    }

    /// Adds `value` to register `register` modulo 256, leaving the flag
    /// alone. Registers are numbered `0` to `0xF`; any other index is refused
    /// and changes nothing.
    pub fn add_v_register(&mut self, register: u8, value: u8) -> (result: Result<(), Chip8Error>)
        ensures
            final(self)@ == old(self)@.add_v_register(register, value),
            final(self)@.wf(),
            register <= 0xF ==> result == Ok::<(), Chip8Error>(()),
            register > 0xF ==> result == Err::<(), Chip8Error>(Chip8Error::InvalidRegisterIndex),
    {
        proof {
            use_type_invariant(&self.blocking_input);
        }
        if register > 0xF {
            return Err(Chip8Error::InvalidRegisterIndex);
        }
        self.registers[register as usize] = self.registers[register as usize].wrapping_add(value);
        Ok(())
    }

    /// `ANNN`.
    fn set_index_register(&mut self, value: u16)
        ensures
            final(self)@ == old(self)@.set_index_register(value),
    {
        self.index_register = value;
    }

    /// `00E0`.
    fn clear_screen(&mut self)
        ensures
            final(self)@ == old(self)@.clear_screen(),
    {
        self.display = [[false; 64]; 32];
        assert(self@.display =~~= old(self)@.clear_screen().display);
    }

    /// The instruction word at the program counter.
    fn fetch_instruction(&self) -> (instruction: u16)
        ensures
            instruction == self@.fetch_instruction(),
    {
        let pc = self.program_counter as usize;
        let high_byte = self.memory[pc % 4096] as u16;
        let low_byte = self.memory[(pc + 1) % 4096] as u16;
        assert((high_byte << 8) | low_byte == high_byte * 256 + low_byte) by (bit_vector)
            requires
                high_byte < 256,
                low_byte < 256,
        ;
        (high_byte << 8) | low_byte
    }

    /// Loads a program: as much of `rom` as fits is copied to memory from
    /// `0x200` on, bytes beyond the end of memory being dropped, and the font
    /// is written at `0x050`. Nothing else changes.
    pub fn set_rom(&mut self, rom: &[u8])
        ensures
            final(self)@ == old(self)@.set_rom(rom@),
            final(self)@.wf(),
    {
        let ghost before = old(self)@;
        let end = if rom.len() < 4096 - 512 {
            rom.len()
        } else {
            4096 - 512
        };
        let mut index: usize = 0;
        while index < end
            invariant
                before == old(self)@,
                end <= rom.len(),
                end <= 4096 - 512,
                index <= end,
                self.memory@ == Seq::new(
                    4096,
                    |address: int|
                        if 0x200 <= address < 0x200 + index {
                            rom@[address - 0x200]
                        } else {
                            before.memory[address]
                        },
                ),
                self@ == (MachineState { memory: self.memory@, ..before }),
            decreases end - index,
        {
            self.memory[512 + index] = rom[index];
            index += 1;
        }
        let font = get_font_chars();
        let mut index: usize = 0;
        while index < font.len()
            invariant
                before == old(self)@,
                end == MachineState::rom_capacity(rom@.len() as int),
                font@ == font_table(),
                font@.len() == 80,
                index <= 80,
                self.memory@ == Seq::new(
                    4096,
                    |address: int|
                        if 0x050 <= address < 0x050 + index {
                            font_table()[address - 0x050]
                        } else if 0x200 <= address < 0x200 + end {
                            rom@[address - 0x200]
                        } else {
                            before.memory[address]
                        },
                ),
                self@ == (MachineState { memory: self.memory@, ..before }),
            decreases 80 - index,
        {
            self.memory[0x050 + index] = font[index];
            index += 1;
        }
        assert(self@.memory =~= old(self)@.set_rom(rom@).memory);
        proof {
            use_type_invariant(&self.blocking_input);
        }
    }

    /// `FX29`.
    fn index_to_font_char(&mut self, target_register: u8)
        requires
            target_register < 16,
        ensures
            final(self)@ == old(self)@.index_to_font_char(target_register),
    {
        let char = self.registers[target_register as usize];
        self.index_register = 0x050 + (char as u16 * 5);
    }

    /// The display, row by row, `true` for a lit pixel.
    pub fn display(&self) -> (display: &[[bool; 64]; 32])
        ensures
            display_view(*display) == self@.display,
    {
        &self.display
    }

    /// All of memory.
    pub fn memory(&self) -> (memory: &[u8; 4096])
        ensures
            memory@ == self@.memory,
    {
        &self.memory
    }

    /// The sixteen registers `V0` to `VF`.
    pub fn registers(&self) -> (registers: &[u8; 16])
        ensures
            registers@ == self@.registers,
    {
        &self.registers
    }

    /// The value of register `index`, or an error for an index above `0xF`.
    pub fn register(&self, index: u8) -> (result: Result<u8, Chip8Error>)
        ensures
            index <= 0xF ==> result == Ok::<u8, Chip8Error>(self@.register(index)),
            index > 0xF ==> result == Err::<u8, Chip8Error>(Chip8Error::InvalidRegisterIndex),
    {
        if index > 0xF {
            return Err(Chip8Error::InvalidRegisterIndex);
        }
        Ok(self.registers[index as usize])
    }

    /// The sixteen key latches, `true` while a key is held.
    pub fn input(&self) -> (input: &[bool; 16])
        ensures
            input@ == self@.input,
    {
        &self.input
    }

    /// The return addresses of the calls that are open, innermost last.
    pub fn call_stack(&self) -> (stack: &Vec<u16>)
        ensures
            stack@ == self@.stack,
    {
        &self.stack
    }

    /// The index register `I`.
    pub fn index_register(&self) -> (value: u16)
        ensures
            value == self@.index_register,
    {
        self.index_register
    }

    /// The address of the next instruction.
    pub fn program_counter(&self) -> (value: u16)
        ensures
            value == self@.program_counter,
    {
        self.program_counter
    }

    /// The delay timer.
    pub fn delay_timer(&self) -> (value: u8)
        ensures
            value == self@.delay_timer,
    {
        self.delay_timer
    }

    /// The sound timer; the host sounds its tone while this is above zero.
    pub fn sound_timer(&self) -> (value: u8)
        ensures
            value == self@.sound_timer,
    {
        self.sound_timer
    }

    /// The quirks the machine was built with.
    pub fn quirk_config(&self) -> (config: QuirkConfig)
        ensures
            config == self@.quirk_config,
    {
        self.quirk_config
    }

    /// Whether the machine waits for the tick that follows a draw.
    pub fn blocking_on_draw(&self) -> (blocking: bool)
        ensures
            blocking == self@.blocking_on_draw,
    {
        self.blocking_on_draw
    }

    /// The key that `FX0A` has seen pressed and waits to see released.
    pub fn blocking_input(&self) -> (key: Option<u8>)
        ensures
            key == self@.blocking_input,
            key matches Some(index) ==> index <= 0xF,
    {
        self.blocking_input.get()
    }

    /// Why the machine halted, or `None` while it runs.
    pub fn fault(&self) -> (fault: Option<Chip8Error>)
        ensures
            fault == self@.fault,
    {
        self.fault
    }
}

/// A program with the name it is offered under and the quirks it needs.
pub struct Chip8Rom {
    pub name: String,
    pub data: Vec<u8>,
    pub quirks: QuirkConfig,
}

impl Chip8Rom {
    /// A ROM that runs with both quirks off.
    pub fn new(name: &str, data: Vec<u8>) -> (rom: Chip8Rom)
        ensures
            rom.name@ == name@,
            rom.data == data,
            rom.quirks == QuirkConfig::off(),
    {
        Chip8Rom { name: name.to_owned(), data, quirks: QuirkConfig::new() }
    }

    /// A ROM that runs with the given quirks.
    pub fn new_quirks(name: &str, data: Vec<u8>, quirks: QuirkConfig) -> (rom: Chip8Rom)
        ensures
            rom.name@ == name@,
            rom.data == data,
            rom.quirks == quirks,
    {
        Chip8Rom { name: name.to_owned(), data, quirks }
    }

    /// The machine state a fresh machine has once this ROM is loaded.
    pub open spec fn device_state(&self) -> MachineState {
        MachineState::initial(self.quirks).set_rom(self.data@)
    }

    /// A fresh machine with this ROM's quirks and the ROM loaded.
    pub fn to_device(&self) -> (chip8: Chip8)
        ensures
            chip8@ == self.device_state(),
            chip8@.wf(),
    {
        let mut chip8 = Chip8::with_quirks(self.quirks);
        chip8.set_rom(self.data.as_slice());
        return chip8;
    }
}

/// The built-in font: sixteen glyphs of five bytes, for the digits `0` to `F`.
pub fn get_font_chars() -> (font: Vec<u8>)
    ensures
        font@ == font_table(),
{
    let font = vec![
        0xF0u8, 0x90, 0x90, 0x90, 0xF0,
        0x20, 0x60, 0x20, 0x20, 0x70,
        0xF0, 0x10, 0xF0, 0x80, 0xF0,
        0xF0, 0x10, 0xF0, 0x10, 0xF0,
        0x90, 0x90, 0xF0, 0x10, 0x10,
        0xF0, 0x80, 0xF0, 0x10, 0xF0,
        0xF0, 0x80, 0xF0, 0x90, 0xF0,
        0xF0, 0x10, 0x20, 0x40, 0x40,
        0xF0, 0x90, 0xF0, 0x90, 0xF0,
        0xF0, 0x90, 0xF0, 0x10, 0xF0,
        0xF0, 0x90, 0xF0, 0x90, 0x90,
        0xE0, 0x90, 0xE0, 0x90, 0xE0,
        0xF0, 0x80, 0x80, 0x80, 0xF0,
        0xE0, 0x90, 0x90, 0x90, 0xE0,
        0xF0, 0x80, 0xF0, 0x80, 0xF0,
        0xF0, 0x80, 0xF0, 0x80, 0x80,
    ];
    assert(font@ =~= font_table());
    font
}

} // verus!
