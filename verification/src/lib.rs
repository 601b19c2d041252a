//! A staked prediction-market ledger.
//!
//! Participants lock collateral behind the options of an event. Once the
//! event's authority declares an outcome, and a dispute window has elapsed,
//! the collateral and a reputation score are redistributed by fixed integer
//! formulas. Every operation is a total function from the records it touches
//! to their next values: on any error the records are left as they were.
//!
//! - [`state`] holds the records, [`error`] the refusals, [`pubkey`] the
//!   identities.
//! - [`settlement`] and [`arbitration`] hold the arithmetic: how a pot is
//!   split and how disputes are weighed.
//! - [`context`] holds the operations, each on the records of one
//!   transaction, and [`laws`] what holds of them.
//! - [`ledger`] holds a store of all records with the same operations by
//!   key, what holds of it at all times, and why.

pub mod arbitration;
pub mod context;
pub mod error;
pub mod laws;
pub mod ledger;
pub mod pubkey;
pub mod settlement;
pub mod state;
