//! A CHIP-8 virtual machine whose instruction semantics are stated as a
//! mathematical model and proved of the executable interpreter.
//!
//! The interpreter lives in [`chip8`]. [`model`] holds the machine as a
//! mathematical value and [`semantics`] the meaning of every instruction, of
//! a cycle and of a tick; [`laws`] proves theorems about that meaning.
//! [`opcode`] splits instruction words, [`quirks`] selects historical
//! variants, [`random`] reaches the operating system's random source, and
//! [`application`] and [`wgpu_math`] hold what a host needs around the
//! machine.

pub mod application;
pub mod chip8;
mod drawing;
pub mod error;
pub mod laws;
pub mod model;
pub mod opcode;
pub mod quirks;
pub mod random;
pub mod semantics;
pub mod wgpu_math;
