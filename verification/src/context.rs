//! The operations of the ledger, each on the records that it reads and writes.

pub mod constants;
pub mod contract_state;
pub mod event;
pub mod option;
pub mod participation;
pub mod user;
pub mod utils;
