//! The options of an event.

use vstd::prelude::*;

verus! {

/// One possible outcome of an event.
#[derive(Clone, Copy, Debug, PartialEq, Eq)]
pub struct EventOption {
    /// Layout version of the record.
    pub version: u8,
    /// Position among the options of the event.
    pub index: u8,
    pub event_id: u128,
    pub description: [u8; 256],
    /// Number of votes for this option.
    pub votes: u64,
    /// Sum of the deposits behind this option.
    pub vault_balance: u64,
}

impl EventOption {
    pub const VERSION: u8 = 1;
}

} // verus!
