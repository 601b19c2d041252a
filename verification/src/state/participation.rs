//! The vote of one user on one event.

use vstd::prelude::*;
use crate::pubkey::Pubkey;

verus! {

/// The single vote of `payer` on the event `event_id`.
#[derive(Clone, Copy, Debug, PartialEq, Eq)]
pub struct Participation {
    /// Layout version of the record.
    pub version: u8,
    pub event_id: u128,
    pub payer: Pubkey,
    /// Index of the chosen option.
    pub option: u8,
    /// The collateral behind the vote that is still locked.
    pub deposited_amount: u64,
    /// Set once the vote has been settled or refunded; never cleared.
    pub is_claimed: bool,
    /// Set once the voter has disputed the outcome; never cleared.
    pub appealed: bool,
}

impl Participation {
    pub const VERSION: u8 = 1;

    /// The collateral that this vote keeps locked: the deposit until the vote
    /// is settled or refunded, nothing afterwards.
    pub open spec fn locked_amount(self) -> nat {
        if self.is_claimed {
            0
        } else {
            self.deposited_amount as nat
        }
    }
}

} // verus!
