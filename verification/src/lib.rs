//! Core of a batch funds-reconciliation service: the ledger, the idempotency
//! cache, the decisions of the fund-discovery engine and the batch lifecycle.
//!
//! Everything here is synchronous and works on plain values. Network traffic,
//! timers and task scheduling belong to the caller, which feeds what it
//! observed into the state machines of [`fund`] and [`handler`].

pub mod config;
pub mod db;
pub mod fund;
pub mod uuid_cache;
pub mod handler;
