//! Monetary-policy and reward-distribution engine of an account-based token
//! ledger: a decaying, time-gated emission schedule, two independently
//! accounted reward pools, and a two-phase ownership-transfer handshake.
//!
//! The engine itself is pure state: every entry point takes the values the
//! host supplies (caller identity, attached value, clock reading, ledger
//! facts) and returns either the action the host must perform on the external
//! ledger or the reason the call was refused.

pub mod params;
pub mod errors;
pub mod decay;
pub mod schedule;
pub mod pools;
pub mod actions;
pub mod contract;
