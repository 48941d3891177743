//! Retry-safety analysis for ledger operations.
//!
//! The library decides whether re-submitting a previously sent but
//! unconfirmed operation is safe: it snapshots a watched account before the
//! operation, obtains the account's post-operation state from a simulation
//! (or a polled read), structurally compares the two, and classifies the
//! result with machine-readable reasons.

pub mod address;
pub mod analysis;
pub mod codec;
pub mod config;
pub mod error;
pub mod poll;
pub mod simulation;
pub mod snapshot;
