//! The records of the ledger.

pub mod appeal;
pub mod contract_state;
pub mod event;
pub mod option;
pub mod participation;
pub mod user;
