//! The machine as a mathematical value: what the contracts of the interpreter
//! speak of.

use vstd::prelude::*;
use crate::error::Chip8Error;
use crate::quirks::QuirkConfig;

verus! {

/// The whole state of a machine.
#[verifier::ext_equal]
pub struct MachineState {
    /// 4096 bytes.
    pub memory: Seq<u8>,
    /// `V0` to `VF`.
    pub registers: Seq<u8>,
    /// `I`.
    pub index_register: u16,
    /// Address of the next instruction.
    pub program_counter: u16,
    /// Return addresses, innermost call last.
    pub stack: Seq<u16>,
    /// 32 rows of 64 pixels, `true` for lit.
    pub display: Seq<Seq<bool>>,
    /// One latch per key, `true` while held.
    pub input: Seq<bool>,
    pub delay_timer: u8,
    pub sound_timer: u8,
    pub quirk_config: QuirkConfig,
    /// Set by a draw until the next tick; cycles do nothing meanwhile.
    pub blocking_on_draw: bool,
    /// The key that `FX0A` has seen pressed and waits to see released.
    pub blocking_input: Option<u8>,
    /// Why the machine halted, once it has.
    pub fault: Option<Chip8Error>,
}

/// `value` reduced to sixteen bits.
pub open spec fn wrap16(value: int) -> u16 {
    (value % 0x1_0000) as u16
}

/// `value` reduced to eight bits.
pub open spec fn wrap8(value: int) -> u8 {
    (value % 0x100) as u8
}

/// `address` reduced to the addressable range.
pub open spec fn wrap_address(address: int) -> int {
    address % 4096
}

/// Whether bit `bit` of `byte` is set, bit 0 being the least significant.
pub open spec fn bit_is_set(byte: u8, bit: u8) -> bool {
    (byte >> bit) & 1 == 1
}

/// An all-dark display.
pub open spec fn blank_display() -> Seq<Seq<bool>> {
    Seq::new(32, |row: int| Seq::new(64, |column: int| false))
}

/// Whether `key` is the lowest-numbered key held down in `input`.
pub open spec fn is_first_pressed(input: Seq<bool>, key: int) -> bool {
    &&& 0 <= key < input.len()
    &&& input[key]
    &&& forall|lower: int| 0 <= lower < key ==> !#[trigger] input[lower]
}

/// The lowest-numbered key held down in `input`, if any is.
pub open spec fn first_pressed(input: Seq<bool>) -> Option<u8> {
    if exists|key: int| is_first_pressed(input, key) {
        Some((choose|key: int| is_first_pressed(input, key)) as u8)
    } else {
        None
    }
}

/// At most one key is the first pressed one.
pub proof fn lemma_first_pressed_unique(input: Seq<bool>, a: int, b: int)
    requires
        is_first_pressed(input, a),
        is_first_pressed(input, b),
    ensures
        a == b,
{
    if a < b {
        assert(!input[a]);
    } else if b < a {
        assert(!input[b]);
    }
}

/// The sixteen five-byte glyphs for the hexadecimal digits `0` to `F`.
pub open spec fn font_table() -> Seq<u8> {
    seq![
        0xF0u8, 0x90, 0x90, 0x90, 0xF0,
        0x20, 0x60, 0x20, 0x20, 0x70,
        0xF0, 0x10, 0xF0, 0x80, 0xF0,
        0xF0, 0x10, 0xF0, 0x10, 0xF0,
        0x90, 0x90, 0xF0, 0x10, 0x10,
        0xF0, 0x80, 0xF0, 0x10, 0xF0,
        0xF0, 0x80, 0xF0, 0x90, 0xF0,
        0xF0, 0x10, 0x20, 0x40, 0x40,
        0xF0, 0x90, 0xF0, 0x90, 0xF0,
        0xF0, 0x90, 0xF0, 0x10, 0xF0,
        0xF0, 0x90, 0xF0, 0x90, 0x90,
        0xE0, 0x90, 0xE0, 0x90, 0xE0,
        0xF0, 0x80, 0x80, 0x80, 0xF0,
        0xE0, 0x90, 0x90, 0x90, 0xE0,
        0xF0, 0x80, 0xF0, 0x80, 0xF0,
        0xF0, 0x80, 0xF0, 0x80, 0x80,
    ]
}

impl MachineState {
    /// The shape every machine has: fixed sizes, and a captured key that
    /// exists.
    pub open spec fn wf(self) -> bool {
        &&& self.memory.len() == 4096
        &&& self.registers.len() == 16
        &&& self.display.len() == 32
        &&& forall|row: int| 0 <= row < 32 ==> (#[trigger] self.display[row]).len() == 64
        &&& self.input.len() == 16
        &&& (self.blocking_input matches Some(key) ==> key < 16)
    }

    /// A machine before any program is loaded: everything zero, dark and
    /// released, the counter at `0x200`.
    pub open spec fn initial(quirk_config: QuirkConfig) -> MachineState {
        MachineState {
            memory: Seq::new(4096, |address: int| 0u8),
            registers: Seq::new(16, |index: int| 0u8),
            index_register: 0,
            program_counter: 0x200,
            stack: Seq::empty(),
            display: blank_display(),
            input: Seq::new(16, |key: int| false),
            delay_timer: 0,
            sound_timer: 0,
            quirk_config,
            blocking_on_draw: false,
            blocking_input: None,
            fault: None,
        }
    }

    /// The byte at `address`, wrapped into memory.
    pub open spec fn byte_at(self, address: int) -> u8 {
        self.memory[wrap_address(address)]
    }

    /// The value of register `index`.
    pub open spec fn register(self, index: u8) -> u8 {
        self.registers[index as int]
    }

    /// Whether the pixel in `row` and `column` is lit.
    pub open spec fn pixel(self, row: int, column: int) -> bool {
        self.display[row][column]
    }

    /// Whether the machine has halted on a fault.
    pub open spec fn halted(self) -> bool {
        self.fault is Some
    }

    /// This state with register `index` holding `value`.
    pub open spec fn with_register(self, index: u8, value: u8) -> MachineState {
        MachineState { registers: self.registers.update(index as int, value), ..self }
    }

    /// This state with the flag register `VF` holding 1 for `true`, 0 for
    /// `false`.
    pub open spec fn with_flag(self, flag: bool) -> MachineState {
        self.with_register(
            0xF,
            if flag {
                1
            } else {
                0
            },
        )
    }

    /// This state with the counter moved past one more instruction.
    pub open spec fn advance(self) -> MachineState {
        MachineState { program_counter: wrap16(self.program_counter + 2), ..self }
    }

    /// This state with the counter moved back by one instruction.
    pub open spec fn rewind(self) -> MachineState {
        MachineState { program_counter: wrap16(self.program_counter - 2), ..self }
    }

    /// This state, past one more instruction if `condition` holds.
    pub open spec fn skip_if(self, condition: bool) -> MachineState {
        if condition {
            self.advance()
        } else {
            self
        }
    }

    /// This state, halted on `error`.
    pub open spec fn halt(self, error: Chip8Error) -> MachineState {
        MachineState { fault: Some(error), ..self }
    }
}

} // verus!
