//! Domain events. Handlers return the data; emitting is a host concern.

use vstd::prelude::*;

verus! {

/// The emission window was chosen.
#[derive(Clone, Copy, Debug, PartialEq, Eq, Structural)]
pub struct NewStartAndEndSlots {
    pub start_slot: u64,
    pub end_slot: u64,
}

/// Emission was stopped early.
#[derive(Clone, Copy, Debug, PartialEq, Eq, Structural)]
pub struct RewardsStop {
    pub end_slot: u64,
}

/// A stake was credited.
#[derive(Clone, Copy, Debug, PartialEq, Eq, Structural)]
pub struct Deposit {
    pub staker: u64,
    pub amount: u64,
}

/// A pending reward was paid out.
#[derive(Clone, Copy, Debug, PartialEq, Eq, Structural)]
pub struct RewardClaim {
    pub claimer: u64,
    pub amount: u64,
}

/// A pending reward was routed back into the stake.
#[derive(Clone, Copy, Debug, PartialEq, Eq, Structural)]
pub struct Compound {
    pub compounder: u64,
    pub amount: u64,
}

} // verus!
