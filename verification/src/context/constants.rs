//! The fixed parameters of the ledger.

use vstd::prelude::*;

verus! {

/// The UUID version that an event identifier must carry.
pub const UUID_VERSION: usize = 4;

/// Seconds after the end date during which only the event's authority may
/// cancel the event.
pub const COMPLETION_DEADLINE: i64 = 86_400;

/// Seconds after the completion deadline during which a declared outcome can
/// be disputed.
pub const APPELLATION_DEADLINE: i64 = 86_400;

/// The largest number of options that an event can have.
pub const MAX_OPTION_COUNT: u8 = 20;

/// The trust level with which a user starts.
pub const INITIAL_LVL: u64 = 5;

/// The number of smallest units in one unit of collateral. Trust is earned
/// per whole unit.
pub const LAMPORTS_PER_SOL: u64 = 1_000_000_000;

/// The last moment at which the outcome of an event that ends at `end_date`
/// can be disputed. Rewards are paid strictly after it.
pub open spec fn dispute_window_end(end_date: i64) -> int {
    end_date + COMPLETION_DEADLINE + APPELLATION_DEADLINE
}

/// The last moment at which only the authority of an event that ends at
/// `end_date` may cancel it.
pub open spec fn completion_window_end(end_date: i64) -> int {
    end_date + COMPLETION_DEADLINE
}

} // verus!
