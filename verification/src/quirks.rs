//! Per-ROM choice between historical instruction variants.

use vstd::prelude::*;

verus! {

/// Selects the legacy behaviour of two instruction families. A machine copies
/// the record at construction and never changes it.
#[derive(Clone, Copy, Debug, PartialEq, Eq, Structural)]
pub struct QuirkConfig {
    /// `FX55` and `FX65` advance the index register by `x + 1`.
    pub memory_index_register_increase: bool,
    /// `8XY6` and `8XYE` shift the value of `VY` instead of `VX`.
    pub source_vy_bitshift: bool,
}

impl QuirkConfig {
    /// The record with both quirks off.
    pub open spec fn off() -> QuirkConfig {
        QuirkConfig { memory_index_register_increase: false, source_vy_bitshift: false }
    }

    /// Both quirks off: the modern behaviour.
    pub fn new() -> (config: QuirkConfig)
        ensures
            config == QuirkConfig::off(),
    {
        QuirkConfig { memory_index_register_increase: false, source_vy_bitshift: false }
    }

    /// A record with the two toggles as given.
    pub fn create(memory_index_register_increase: bool, source_vy_bitshift: bool) -> (config:
        QuirkConfig)
        ensures
            config.memory_index_register_increase == memory_index_register_increase,
            config.source_vy_bitshift == source_vy_bitshift,
    {
        QuirkConfig { memory_index_register_increase, source_vy_bitshift }
    }
}

} // verus!
