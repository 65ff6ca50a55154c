//! A small ledger-resident state machine that tracks charitable donations and
//! the meals they pay for.
//!
//! The state lives in a host key/value store with a sliding expiration
//! window; [`ledger`] models that store and proves the three operations on
//! it, and [`laws`] states the properties that hold across whole sequences
//! of calls.

pub mod laws;
pub mod ledger;
