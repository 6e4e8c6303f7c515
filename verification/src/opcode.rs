//! Splitting a 16-bit instruction word into its fields.

use vstd::prelude::*;

verus! {

/// The fields of one instruction word `0xOXYN`.
#[derive(Clone, Copy, Debug, PartialEq, Eq, Structural)]
pub struct Opcode {
    /// The whole word.
    pub instruction: u16,
    /// Top nibble: the instruction family.
    pub opcode: u8,
    /// Second nibble: a register index.
    pub x: u8,
    /// Third nibble: a register index.
    pub y: u8,
    /// Low nibble.
    pub n: u8,
    /// Low byte.
    pub nn: u8,
    /// Low twelve bits: an address.
    pub nnn: u16,
}

impl Opcode {
    /// The fields of `instruction`, by division and remainder.
    pub open spec fn decode(instruction: u16) -> Opcode {
        Opcode {
            instruction,
            opcode: (instruction / 4096) as u8,
            x: (instruction / 256 % 16) as u8,
            y: (instruction / 16 % 16) as u8,
            n: (instruction % 16) as u8,
            nn: (instruction % 256) as u8,
            nnn: instruction % 4096,
        }
    }

    /// The word that carries the given family and fields: the inverse of
    /// [`Opcode::decode`] on nibbles.
    pub open spec fn encode(opcode: u8, x: u8, y: u8, n: u8) -> u16 {
        (opcode * 4096 + x * 256 + y * 16 + n) as u16
    }

    /// Register indices and the family are nibbles and the address has twelve
    /// bits, whatever the word.
    pub proof fn lemma_decode_ranges(instruction: u16)
        ensures
            Opcode::decode(instruction).opcode < 16,
            Opcode::decode(instruction).x < 16,
            Opcode::decode(instruction).y < 16,
            Opcode::decode(instruction).n < 16,
            Opcode::decode(instruction).nnn < 4096,
            Opcode::decode(instruction).nn == Opcode::decode(instruction).y * 16
                + Opcode::decode(instruction).n,
            Opcode::decode(instruction).nnn == Opcode::decode(instruction).x * 256
                + Opcode::decode(instruction).nn,
    {
    }

    /// Decoding an encoded word gives the fields back.
    pub proof fn lemma_decode_encode(opcode: u8, x: u8, y: u8, n: u8)
        requires
            opcode < 16,
            x < 16,
            y < 16,
            n < 16,
        ensures
            Opcode::decode(Opcode::encode(opcode, x, y, n)).opcode == opcode,
            Opcode::decode(Opcode::encode(opcode, x, y, n)).x == x,
            Opcode::decode(Opcode::encode(opcode, x, y, n)).y == y,
            Opcode::decode(Opcode::encode(opcode, x, y, n)).n == n,
            Opcode::decode(Opcode::encode(opcode, x, y, n)).nn == y * 16 + n,
            Opcode::decode(Opcode::encode(opcode, x, y, n)).nnn == x * 256 + y * 16 + n,
            Opcode::decode(Opcode::encode(opcode, x, y, n)).instruction == Opcode::encode(
                opcode,
                x,
                y,
                n,
            ),
    {
        let low: int = x * 256 + y * 16 + n;
        let word: int = opcode * 4096 + low;
        assert(0 <= low < 4096 && 0 <= word < 65536);
        assert(word / 4096 == opcode && word % 4096 == low);
        assert(word / 256 % 16 == x) by {
            assert(word / 256 == opcode * 16 + x);
        }
        assert(word / 16 % 16 == y) by {
            assert(word / 16 == opcode * 256 + x * 16 + y);
        }
        assert(word % 16 == n);
        assert(word % 256 == y * 16 + n);
    }

    /// Decodes one instruction word.
    pub fn from_instruction(instruction: u16) -> (op: Opcode)
        ensures
            op == Opcode::decode(instruction),
    {
        let opcode = ((instruction >> 12) & 0xF) as u8;
        let x = ((instruction >> 8) & 0xF) as u8;
        let y = ((instruction >> 4) & 0xF) as u8;
        let n = (instruction & 0xF) as u8;
        let nn = (instruction & 0xFF) as u8;
        let nnn = instruction & 0xFFF;
        proof {
            assert((instruction >> 12) & 0xF == instruction / 4096) by (bit_vector);
            assert((instruction >> 8) & 0xF == instruction / 256 % 16) by (bit_vector);
            assert((instruction >> 4) & 0xF == instruction / 16 % 16) by (bit_vector);
            assert(instruction & 0xF == instruction % 16) by (bit_vector);
            assert(instruction & 0xFF == instruction % 256) by (bit_vector);
            assert(instruction & 0xFFF == instruction % 4096) by (bit_vector);
        }
        Opcode { instruction, opcode, x, y, n, nn, nnn }
    }
}

} // verus!
