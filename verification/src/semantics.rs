//! What each instruction, a cycle and a tick do to a machine, as functions
//! from state to state.
//!
//! The function of an instruction takes the state in which the program
//! counter has already moved past that instruction.

use vstd::prelude::*;
use crate::error::Chip8Error;
use crate::model::{
    bit_is_set, blank_display, first_pressed, font_table, wrap16, wrap8, wrap_address,
    MachineState,
};
use crate::opcode::Opcode;

verus! {

/// Whether a sprite of `height` rows placed with its top left corner at
/// (`left`, `top`) covers the pixel in `row` and `column`. Rows and columns
/// beyond the display's edge are cut off, not wrapped.
pub open spec fn sprite_covers(left: int, top: int, height: int, row: int, column: int) -> bool {
    &&& top <= row < top + height
    &&& row < 32
    &&& left <= column < left + 8
    &&& column < 64
}

impl MachineState {
    /// The instruction word at the program counter, high byte first.
    pub open spec fn fetch_instruction(self) -> u16 {
        (self.byte_at(self.program_counter as int) * 256 + self.byte_at(
            self.program_counter + 1,
        )) as u16
    }

    /// `1NNN`: continue at `value`.
    pub open spec fn set_program_counter(self, value: u16) -> MachineState {
        MachineState { program_counter: value, ..self }
    }

    /// `2NNN`: remember where to return to, then continue at `position`.
    pub open spec fn jump_sub(self, position: u16) -> MachineState {
        MachineState {
            stack: self.stack.push(self.program_counter),
            program_counter: position,
            ..self
        }
    }

    /// `00EE`: continue after the innermost call; nothing happens when no
    /// call is open.
    pub open spec fn return_sub(self) -> MachineState {
        if self.stack.len() > 0 {
            MachineState {
                program_counter: self.stack.last(),
                stack: self.stack.drop_last(),
                ..self
            }
        } else {
            self
        }
    }

    /// `BNNN`: continue at `position + V0`.
    pub open spec fn jump_offset(self, position: u16) -> MachineState {
        MachineState { program_counter: wrap16(position + self.register(0)), ..self }
    }

    /// `3XNN` and, inverted, `4XNN`: skip when `VX` equals `value`.
    pub open spec fn value_conditional_skip(self, register: u8, value: u8, inverse: bool)
        -> MachineState {
        self.skip_if((self.register(register) == value) != inverse)
    }

    /// `5XY0` and, inverted, `9XY0`: skip when the two registers are equal.
    pub open spec fn register_conditional_skip(self, register_a: u8, register_b: u8, inverse: bool)
        -> MachineState {
        self.skip_if((self.register(register_a) == self.register(register_b)) != inverse)
    }

    /// `6XNN`: `VX = value`. An index above `0xF` changes nothing.
    pub open spec fn set_v_register(self, register: u8, value: u8) -> MachineState {
        if register <= 0xF {
            self.with_register(register, value)
        } else {
            self
        }
    }

    /// `7XNN`: `VX = VX + value` modulo 256; the flag is untouched. An index
    /// above `0xF` changes nothing.
    pub open spec fn add_v_register(self, register: u8, value: u8) -> MachineState {
        if register <= 0xF {
            self.with_register(register, wrap8(self.register(register) + value))
        } else {
            self
        }
    }

    /// `8XY0`: `VX = VY`.
    pub open spec fn register_copy(self, target: u8, source: u8) -> MachineState {
        self.with_register(target, self.register(source))
    }

    /// `8XY1`: the flag is cleared, then `VX = VX | VY`.
    pub open spec fn register_or(self, target: u8, source: u8) -> MachineState {
        let cleared = self.with_flag(false);
        cleared.with_register(target, cleared.register(target) | cleared.register(source))
    }

    /// `8XY2`: the flag is cleared, then `VX = VX & VY`.
    pub open spec fn register_and(self, target: u8, source: u8) -> MachineState {
        let cleared = self.with_flag(false);
        cleared.with_register(target, cleared.register(target) & cleared.register(source))
    }

    /// `8XY3`: the flag is cleared, then `VX = VX ^ VY`.
    pub open spec fn register_xor(self, target: u8, source: u8) -> MachineState {
        let cleared = self.with_flag(false);
        cleared.with_register(target, cleared.register(target) ^ cleared.register(source))
    }

    /// `8XY4`: `VX = VX + VY` modulo 256, then the flag says whether the sum
    /// passed 255.
    pub open spec fn register_add(self, target: u8, source: u8) -> MachineState {
        let sum = self.register(target) + self.register(source);
        self.with_register(target, wrap8(sum)).with_flag(sum > 255)
    }

    /// `8XY5` and, with `swap`, `8XY7`: `VX = VX - VY` (swapped: `VY - VX`)
    /// modulo 256, then the flag says that nothing was borrowed.
    pub open spec fn register_sub(self, target: u8, source: u8, swap: bool) -> MachineState {
        let minuend = if swap {
            self.register(source)
        } else {
            self.register(target)
        };
        let subtrahend = if swap {
            self.register(target)
        } else {
            self.register(source)
        };
        self.with_register(target, wrap8(minuend - subtrahend)).with_flag(minuend >= subtrahend)
    }

    /// The value that `8XY6` and `8XYE` shift: `VY` under the quirk, else
    /// `VX`.
    pub open spec fn shift_operand(self, target: u8, source: u8) -> u8 {
        if self.quirk_config.source_vy_bitshift {
            self.register(source)
        } else {
            self.register(target)
        }
    }

    /// `8XY6` and, with `inverse`, `8XYE`: `VX` becomes the operand halved
    /// (inverse: doubled modulo 256), then the flag holds the bit that fell
    /// off.
    pub open spec fn register_shift(self, target: u8, source: u8, inverse: bool) -> MachineState {
        let operand = self.shift_operand(target, source);
        if inverse {
            self.with_register(target, wrap8(operand * 2)).with_flag(operand >= 128)
        } else {
            self.with_register(target, operand / 2).with_flag(operand % 2 == 1)
        }
    }

    /// `ANNN`: `I = value`.
    pub open spec fn set_index_register(self, value: u16) -> MachineState {
        MachineState { index_register: value, ..self }
    }

    /// `CXNN` given what the random source offered: `VX = byte & mask`, or a
    /// halt when it offered nothing.
    pub open spec fn set_register_random(self, target: u8, mask: u8, draw: Option<u8>)
        -> MachineState {
        match draw {
            Some(byte) => self.with_register(target, byte & mask),
            None => self.halt(Chip8Error::RandomSourceUnavailable),
        }
    }

    /// Whether the sprite at `I`, placed at (`left`, `top`), has a set bit on
    /// the pixel in `row` and `column`. The sprite's row `r` is the byte at
    /// `I + r`, its leftmost pixel the most significant bit.
    pub open spec fn sprite_pixel(self, left: int, top: int, height: int, row: int, column: int)
        -> bool {
        &&& sprite_covers(left, top, height, row, column)
        &&& bit_is_set(
            self.byte_at(self.index_register + (row - top)),
            (7 - (column - left)) as u8,
        )
    }

    /// Whether drawing the sprite would turn a lit pixel off.
    pub open spec fn sprite_collides(self, left: int, top: int, height: int) -> bool {
        exists|row: int, column: int|
            0 <= row < 32 && 0 <= column < 64 && self.pixel(row, column) && #[trigger] self.sprite_pixel(
                left,
                top,
                height,
                row,
                column,
            )
    }

    /// The display with the sprite XORed onto it.
    pub open spec fn sprite_drawn(self, left: int, top: int, height: int) -> Seq<Seq<bool>> {
        Seq::new(
            32,
            |row: int|
                Seq::new(
                    64,
                    |column: int|
                        self.pixel(row, column) != self.sprite_pixel(left, top, height, row, column),
                ),
        )
    }

    /// `DXYN`: XOR the `height`-row sprite at `I` onto the display at
    /// (`VX mod 64`, `VY mod 32`), set the flag if a lit pixel went dark and
    /// clear it otherwise, and wait for the next tick.
    pub open spec fn draw_sprite(self, x: u8, y: u8, height: u8) -> MachineState {
        let left = self.register(x) % 64;
        let top = self.register(y) % 32;
        MachineState {
            display: self.sprite_drawn(left as int, top as int, height as int),
            blocking_on_draw: true,
            ..self.with_flag(self.sprite_collides(left as int, top as int, height as int))
        }
    }

    /// Whether the key named by `VX`, taken modulo 16, is held.
    pub open spec fn key_pressed(self, register: u8) -> bool {
        self.input[(self.register(register) % 16) as int]
    }

    /// `EX9E` and, inverted, `EXA1`: skip when the key named by `VX` is held.
    pub open spec fn input_conditional_skip(self, register: u8, inverse: bool) -> MachineState {
        self.skip_if(self.key_pressed(register) != inverse)
    }

    /// `FX07`: `VX = delay timer`.
    pub open spec fn get_delay_timer(self, target: u8) -> MachineState {
        self.with_register(target, self.delay_timer)
    }

    /// `FX0A`: with no key captured, capture the lowest key held, or come
    /// back to this instruction if none is; with a key captured, store it in
    /// `VX` once it is released, and come back until then.
    pub open spec fn wait_for_input(self, target: u8) -> MachineState {
        match self.blocking_input {
            None => match first_pressed(self.input) {
                Some(key) => MachineState { blocking_input: Some(key), ..self },
                None => self.rewind(),
            },
            Some(key) => if !self.input[key as int] {
                MachineState { blocking_input: None, ..self.with_register(target, key) }
            } else {
                self.rewind()
            },
        }
    }

    /// `FX15`: `delay timer = VX`.
    pub open spec fn set_delay_timer(self, source: u8) -> MachineState {
        MachineState { delay_timer: self.register(source), ..self }
    }

    /// `FX18`: `sound timer = VX`.
    pub open spec fn set_sound_timer(self, source: u8) -> MachineState {
        MachineState { sound_timer: self.register(source), ..self }
    }

    /// `FX1E`: `I = I + VX` modulo 65536.
    pub open spec fn add_index_register(self, source: u8) -> MachineState {
        MachineState { index_register: wrap16(self.index_register + self.register(source)), ..self }
    }

    /// `FX29`: `I` = address of the glyph for `VX`.
    pub open spec fn index_to_font_char(self, source: u8) -> MachineState {
        MachineState { index_register: (0x050 + self.register(source) * 5) as u16, ..self }
    }

    /// `FX33`: the hundreds, tens and ones of `VX` go to the three bytes at
    /// `I`.
    pub open spec fn convert_to_bcd(self, source: u8) -> MachineState {
        let value = self.register(source);
        MachineState {
            memory: self.memory.update(wrap_address(self.index_register as int), value / 100).update(
                wrap_address(self.index_register + 1),
                value / 10 % 10,
            ).update(wrap_address(self.index_register + 2), value % 10),
            ..self
        }
    }

    /// `I` after `FX55` or `FX65`: moved past the transferred bytes under the
    /// quirk, else unchanged.
    pub open spec fn index_after_transfer(self, last: u8) -> u16 {
        if self.quirk_config.memory_index_register_increase {
            wrap16(self.index_register + last + 1)
        } else {
            self.index_register
        }
    }

    /// `FX55`: `V0` to `VX` go to the bytes at `I`, `I + 1`, ...
    pub open spec fn register_to_memory(self, last: u8) -> MachineState {
        MachineState {
            memory: Seq::new(
                4096,
                |address: int|
                    {
                        let offset = wrap_address(address - self.index_register);
                        if offset <= last {
                            self.registers[offset]
                        } else {
                            self.memory[address]
                        }
                    },
            ),
            index_register: self.index_after_transfer(last),
            ..self
        }
    }

    /// `FX65`: `V0` to `VX` are read from the bytes at `I`, `I + 1`, ...
    pub open spec fn memory_to_register(self, last: u8) -> MachineState {
        MachineState {
            registers: Seq::new(
                16,
                |index: int|
                    if index <= last {
                        self.byte_at(self.index_register + index)
                    } else {
                        self.registers[index]
                    },
            ),
            index_register: self.index_after_transfer(last),
            ..self
        }
    }

    /// `00E0`: every pixel goes dark.
    pub open spec fn clear_screen(self) -> MachineState {
        MachineState { display: blank_display(), ..self }
    }

    /// A halt on the instruction word `raw`, which no instruction matches. The
    /// recorded address is the one the word was fetched from.
    pub open spec fn unsupported(self, raw: u16) -> MachineState {
        self.halt(
            Chip8Error::UnsupportedInstruction { raw, pc: wrap16(self.program_counter - 2) },
        )
    }

    /// The decoded instruction `op` performed. `draw` is what the random
    /// source offered; only `CXNN` looks at it.
    #[verifier::opaque]
    pub open spec fn execute(self, op: Opcode, draw: Option<u8>) -> MachineState {
        if op.opcode == 0x0 {
            if op.nnn == 0x0E0 {
                self.clear_screen()
            } else if op.nnn == 0x0EE {
                self.return_sub()
            } else {
                self.unsupported(op.instruction)
            }
        } else if op.opcode == 0x1 {
            self.set_program_counter(op.nnn)
        } else if op.opcode == 0x2 {
            self.jump_sub(op.nnn)
        } else if op.opcode == 0x3 {
            self.value_conditional_skip(op.x, op.nn, false)
        } else if op.opcode == 0x4 {
            self.value_conditional_skip(op.x, op.nn, true)
        } else if op.opcode == 0x5 && op.n == 0x0 {
            self.register_conditional_skip(op.x, op.y, false)
        } else if op.opcode == 0x6 {
            self.set_v_register(op.x, op.nn)
        } else if op.opcode == 0x7 {
            self.add_v_register(op.x, op.nn)
        } else if op.opcode == 0x8 {
            if op.n == 0x0 {
                self.register_copy(op.x, op.y)
            } else if op.n == 0x1 {
                self.register_or(op.x, op.y)
            } else if op.n == 0x2 {
                self.register_and(op.x, op.y)
            } else if op.n == 0x3 {
                self.register_xor(op.x, op.y)
            } else if op.n == 0x4 {
                self.register_add(op.x, op.y)
            } else if op.n == 0x5 {
                self.register_sub(op.x, op.y, false)
            } else if op.n == 0x6 {
                self.register_shift(op.x, op.y, false)
            } else if op.n == 0x7 {
                self.register_sub(op.x, op.y, true)
            } else if op.n == 0xE {
                self.register_shift(op.x, op.y, true)
            } else {
                self.unsupported(op.instruction)
            }
        } else if op.opcode == 0x9 && op.n == 0x0 {
            self.register_conditional_skip(op.x, op.y, true)
        } else if op.opcode == 0xA {
            self.set_index_register(op.nnn)
        } else if op.opcode == 0xB {
            self.jump_offset(op.nnn)
        } else if op.opcode == 0xC {
            self.set_register_random(op.x, op.nn, draw)
        } else if op.opcode == 0xD {
            self.draw_sprite(op.x, op.y, op.n)
        } else if op.opcode == 0xE {
            if op.nn == 0x9E {
                self.input_conditional_skip(op.x, false)
            } else if op.nn == 0xA1 {
                self.input_conditional_skip(op.x, true)
            } else {
                self.unsupported(op.instruction)
            }
        } else if op.opcode == 0xF {
            if op.nn == 0x07 {
                self.get_delay_timer(op.x)
            } else if op.nn == 0x0A {
                self.wait_for_input(op.x)
            } else if op.nn == 0x15 {
                self.set_delay_timer(op.x)
            } else if op.nn == 0x18 {
                self.set_sound_timer(op.x)
            } else if op.nn == 0x1E {
                self.add_index_register(op.x)
            } else if op.nn == 0x29 {
                self.index_to_font_char(op.x)
            } else if op.nn == 0x33 {
                self.convert_to_bcd(op.x)
            } else if op.nn == 0x55 {
                self.register_to_memory(op.x)
            } else if op.nn == 0x65 {
                self.memory_to_register(op.x)
            } else {
                self.unsupported(op.instruction)
            }
        } else {
            self.unsupported(op.instruction)
        }
    }

    /// Whether a cycle is a no-op: the machine has halted or waits for the
    /// tick that follows a draw.
    pub open spec fn stalled(self) -> bool {
        self.halted() || self.blocking_on_draw
    }

    /// Whether the next cycle asks the random source for a byte.
    pub open spec fn draws_random(self) -> bool {
        !self.stalled() && Opcode::decode(self.fetch_instruction()).opcode == 0xC
    }

    /// One cycle: nothing while stalled; otherwise fetch, move the counter
    /// past the instruction, and perform it.
    pub open spec fn cycle(self, draw: Option<u8>) -> MachineState {
        if self.stalled() {
            self
        } else {
            self.advance().execute(Opcode::decode(self.fetch_instruction()), draw)
        }
    }

    /// One tick: each timer above zero loses one, and a draw-wait ends.
    pub open spec fn update(self) -> MachineState {
        MachineState {
            delay_timer: if self.delay_timer > 0 {
                (self.delay_timer - 1) as u8
            } else {
                0
            },
            sound_timer: if self.sound_timer > 0 {
                (self.sound_timer - 1) as u8
            } else {
                0
            },
            blocking_on_draw: false,
            ..self
        }
    }

    /// Key `key` latched as `pressed`. An index above `0xF` changes nothing.
    pub open spec fn set_input(self, key: u8, pressed: bool) -> MachineState {
        if key <= 0xF {
            MachineState { input: self.input.update(key as int, pressed), ..self }
        } else {
            self
        }
    }

    /// How many bytes of a ROM of `length` bytes fit into memory.
    pub open spec fn rom_capacity(length: int) -> int {
        if length <= 4096 - 512 {
            length
        } else {
            4096 - 512
        }
    }

    /// The font at `0x050` and as much of `rom` as fits from `0x200` on; the
    /// rest of memory, and all other state, as before.
    pub open spec fn set_rom(self, rom: Seq<u8>) -> MachineState {
        MachineState {
            memory: Seq::new(
                4096,
                |address: int|
                    if 0x050 <= address < 0x050 + 80 {
                        font_table()[address - 0x050]
                    } else if 0x200 <= address < 0x200 + Self::rom_capacity(rom.len() as int) {
                        rom[address - 0x200]
                    } else {
                        self.memory[address]
                    },
            ),
            ..self
        }
    }
}

} // verus!
