//! The ledger: balances in cents, keyed by user id.

pub mod api;
pub mod conservation;
pub mod mmap;
