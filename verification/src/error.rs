//! Failure conditions detected before any state change or transfer.

use vstd::prelude::*;

verus! {

/// Why an operation was rejected. Every rejection happens before any state
/// mutation, so a caller that receives one of these has an unchanged pool.
#[derive(Clone, Copy, Debug, PartialEq, Eq, Structural)]
pub enum BrewStakingError {
    /// The stake fee passed at pool creation exceeds `MAX_FEE`.
    InvalidStakeFee,
    /// The unstake fee passed at pool creation exceeds `MAX_FEE`.
    InvalidUnstakeFee,
    /// The caller's spendable balance does not exceed the flat fee owed.
    InsufficientDeployFee,
    /// A stake was attempted before the pool's start slot was set and passed.
    PoolNotStarted,
    /// The emission window was already started once.
    PoolAlreadyStarted,
    /// The computed pending reward exceeds the reward tokens available.
    InsufficientReward,
    /// An unstake of zero was requested.
    UnstakeAmountTooSmall,
    /// An unstake of the whole position or more was requested.
    UnstakeAmountTooHigh,
}

} // verus!
