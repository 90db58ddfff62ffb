//! Core of a token-launch protocol: a linear bonding-curve trading engine,
//! a time-locked collateral escrow with a fraud flag, and a pro-rata refund
//! calculator that reconciles buyer purchase history against escrow funds.
//!
//! Every operation is a pure state transition on plain values. The hosting
//! environment (balances, signatures, record addressing, the clock) is kept
//! outside: callers pass identities as integers and the current time as a
//! timestamp, and apply the returned value movements themselves.

pub mod constants;
pub mod curve;
pub mod errors;
pub mod escrow;
pub mod laws;
pub mod protocol;
pub mod refund;
pub mod state;
