//! The dispute record of an event.

use vstd::prelude::*;

verus! {

/// The weight of the disputes raised against the outcome of one event.
#[derive(Clone, Copy, Debug, PartialEq, Eq)]
pub struct Appellation {
    /// Layout version of the record.
    pub version: u8,
    /// The event that is disputed.
    pub event_id: u128,
    /// How many participants disagree.
    pub disagree_count: u64,
    /// The sum of their trust levels, each taken when the dispute was raised.
    pub disagree_trust_lvl: u64,
    /// The sum of their deposits.
    pub disagree_volume: u64,
}

impl Appellation {
    pub const VERSION: u8 = 1;
}

} // verus!
