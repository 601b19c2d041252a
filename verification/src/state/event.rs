//! Events and their descriptive data.

use vstd::prelude::*;
use crate::pubkey::Pubkey;

verus! {

/// A proposition with a fixed active window and a set of exclusive options.
#[derive(Clone, Copy, Debug, PartialEq, Eq)]
pub struct Event {
    /// Layout version of the record.
    pub version: u8,
    /// Version 4 UUID of the event.
    pub id: u128,
    /// The creator, who declares the outcome.
    pub authority: Pubkey,
    /// Collateral posted by the creator and not yet released or forfeited.
    pub stake: u64,
    pub start_date: i64,
    pub end_date: i64,
    /// If set, votes are accepted strictly before it only.
    pub participation_deadline: Option<i64>,
    /// Number of options created so far; their indices are `0..option_count`.
    pub option_count: u8,
    pub canceled: bool,
    /// Sum of all deposits.
    pub total_amount: u64,
    /// Sum of the voters' trust levels, each taken at the time of voting.
    pub total_trust: u64,
    /// Number of votes.
    pub participation_count: u64,
    /// Index of the winning option, once declared.
    pub result: Option<u8>,
}

impl Event {
    pub const VERSION: u8 = 1;

    /// The dates are ordered and the deadline, if any, lies within them.
    pub open spec fn wf(self) -> bool {
        dates_valid(self.start_date, self.end_date, self.participation_deadline)
    }
}

/// What the dates of every event satisfy: the start lies strictly before the
/// end, and a participation deadline lies between them, both included.
pub open spec fn dates_valid(start_date: i64, end_date: i64, deadline: Option<i64>) -> bool {
    &&& start_date < end_date
    &&& deadline matches Some(d) ==> start_date <= d <= end_date
}

/// The descriptive data of an event.
#[derive(Clone, Copy, Debug, PartialEq, Eq)]
pub struct EventMeta {
    /// Layout version of the record.
    pub version: u8,
    /// The event that is described.
    pub id: u128,
    pub is_private: bool,
    pub name: [u8; 32],
    pub description: [u8; 256],
}

impl EventMeta {
    pub const VERSION: u8 = 1;
}

} // verus!
