//! The configuration of the ledger.

use vstd::prelude::*;
use crate::pubkey::Pubkey;

verus! {

/// The parameters that every settlement reads.
#[derive(Clone, Copy, Debug, PartialEq, Eq)]
pub struct State {
    /// Layout version of the record.
    pub version: u8,
    /// Who may change the configuration, and who receives the platform fee.
    pub authority: Pubkey,
    /// Trust earned per whole unit of collateral.
    pub multiplier: u64,
    /// Price of creating an event.
    pub event_price: u64,
    /// Flat fee taken from the pot of a settled event.
    pub platform_fee: u64,
    /// Percentage of the pot reserved for the event's creator.
    pub org_reward: u64,
}

impl State {
    pub const VERSION: u8 = 1;
}

} // verus!
