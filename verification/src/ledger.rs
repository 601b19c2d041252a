//! A store of all records, keyed by what identifies them, and the
//! operations of the ledger on it.

pub mod accounting;
pub mod laws;
pub mod lifecycle;
pub mod settling;
pub mod staking;
pub mod store;
pub mod view;
