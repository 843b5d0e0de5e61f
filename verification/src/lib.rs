//! Core of a time-windowed, share-based staking reward pool.
//!
//! Users deposit a stake asset and accrue a reward asset in proportion to
//! their share of the pool over a fixed emission window. The engine is the
//! lazy fixed-point accumulator (`acc_token_per_share`) that every mutating
//! operation advances before touching per-user bookkeeping. Asset transfers,
//! the clock, and the swap venue used by compounding are host concerns: every
//! function here works on plain values and reports the transfers the host
//! must perform.

pub mod error;
pub mod events;
pub mod laws;
pub mod lifecycle;
pub mod operations;
pub mod state;
pub mod utils;
