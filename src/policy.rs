//! The moisture decision and the relay level that follows from it.

use vstd::prelude::*;

verus! {

/// Raw samples below this value read as dry soil: the pump runs.
pub const THRESHOLD: u16 = 2048;

/// Whether a raw sample asks for water: strictly below the threshold.
pub open spec fn spec_needs_water(sample: u16) -> bool {
    sample < THRESHOLD
}

/// Decides from one raw moisture sample whether the pump runs. Lower samples
/// mean drier soil for this sensor; the decision keeps no memory.
pub fn needs_water(sample: u16) -> (r: bool)
    ensures
        r == spec_needs_water(sample),
        r == (sample < THRESHOLD),
{
    sample < THRESHOLD
}

/// Output level of the pump relay.
#[derive(Clone, Copy, Debug, PartialEq, Eq, Structural)]
pub enum RelayLevel {
    On,
    Off,
}

/// The relay level that a decision calls for.
pub open spec fn spec_relay_level(decision: bool) -> RelayLevel {
    if decision {
        RelayLevel::On
    } else {
        RelayLevel::Off
    }
}

/// Maps a decision to the relay level: `On` for `true`, `Off` for `false`.
pub fn relay_level(decision: bool) -> (r: RelayLevel)
    ensures
        r == spec_relay_level(decision),
{
    if decision {
        RelayLevel::On
    } else {
        RelayLevel::Off
    }
}

impl RelayLevel {
    /// Whether the relay pin is driven high at this level.
    pub fn is_high(&self) -> (r: bool)
        ensures
            r == (*self == RelayLevel::On),
    {
        match self {
            RelayLevel::On => true,
            RelayLevel::Off => false,
        }
    }
}

} // verus!
