//! Failures the virtual machine can report.

use vstd::prelude::*;

verus! {

/// What can go wrong while driving the machine.
#[derive(Clone, Copy, Debug, PartialEq, Eq, Structural)]
pub enum Chip8Error {
    /// The fetched word matches no instruction. `raw` is the word and `pc` the
    /// address it was fetched from. The machine halts.
    UnsupportedInstruction { raw: u16, pc: u16 },
    /// A register was addressed by an index above `0xF`. Decoding never
    /// produces such an index; only a direct caller can.
    InvalidRegisterIndex,
    /// A key was addressed by an index above `0xF`.
    KeyIndexOutOfRange,
    /// `CXNN` asked for a random byte and the operating system had none to
    /// give. The machine halts.
    RandomSourceUnavailable,
}

} // verus!
