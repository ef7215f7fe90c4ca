//! Atomic, idempotent fund transfers between balance-bearing accounts.
//!
//! The crate holds the account entity, the exact decimal amounts it works on,
//! the transfer protocol as a step function that a storage adapter drives, an
//! in-memory ledger, and the transfer service that runs the protocol against
//! that ledger as one atomic unit of work.

pub mod money;
pub mod models;
pub mod transfer;
pub mod ledger;
pub mod protocol;
pub mod adapter;
pub mod service;
pub mod guarantees;
