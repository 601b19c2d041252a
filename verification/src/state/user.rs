//! Users and their collateral.

use vstd::prelude::*;
use crate::pubkey::Pubkey;

verus! {

/// The collateral and the reputation of one user.
#[derive(Clone, Copy, Debug, PartialEq, Eq)]
pub struct User {
    /// Layout version of the record.
    pub version: u8,
    /// The wallet that owns the record.
    pub payer: Pubkey,
    /// Free collateral.
    pub stake: u64,
    /// Collateral committed to unsettled votes and to events of one's own.
    pub locked_stake: u64,
    /// Reputation score.
    pub trust_lvl: u64,
    pub name: [u8; 32],
}

impl User {
    pub const VERSION: u8 = 1;
}

} // verus!
