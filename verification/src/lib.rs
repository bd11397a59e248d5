//! A fungible-balance ledger core with double-entry bookkeeping.
//!
//! Each account carries two opposing entries — a cumulative Added amount and a
//! cumulative Used amount — instead of a single signed balance, and a global
//! total-supply table mirrors the same two entry kinds.  Every mutation of an
//! account balance yields a linear imbalance token holding the pending change
//! to total issuance; the token must be consumed exactly once, either paired
//! with an opposite ledger mutation or explicitly disposed, which reconciles
//! the total-supply table.  Authentication, event notification and binary
//! encoding of stored values are external collaborators and live outside this
//! library.

pub mod imbalance;
pub mod laws;
pub mod ledger;
pub mod summation;
pub mod types;
