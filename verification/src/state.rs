//! Platform, pool and user records, their constants and well-formedness.

use vstd::prelude::*;

verus! {

/// Fee rates are expressed in basis points; a rate may not exceed this bound
/// (10000 basis points = 100%).
pub const MAX_FEE: u16 = 10000;

/// Denominator for basis-point fee arithmetic.
pub const PERCENT_PRECISION: u64 = 10000;

/// Number of slots in one day; a pool's `duration` is given in days.
pub const SLOTS_PER_DAY: u64 = 216000;

/// Slots between the start request and the first reward-eligible slot.
pub const START_DELAY_SLOTS: u64 = 10;

/// Reward-per-share arithmetic is normalized to this many fixed-point
/// decimals; a reward asset may not have more.
pub const PRECISION_DECIMALS: u8 = 9;

/// Platform-wide settings: flat fees and the treasury that receives them.
#[derive(Clone, Copy, Debug, PartialEq, Eq, Structural)]
pub struct PlatformInfo {
    /// Flat fee charged when a pool is created.
    pub deploy_fee: u64,
    /// Flat fee charged on every stake/unstake/claim/compound.
    pub performance_fee: u64,
    /// Identity of the treasury account that receives both fees.
    pub treasury: u64,
}

/// Per-pool configuration, written once at creation and when the emission
/// window is chosen or closed.
#[derive(Clone, Debug, PartialEq, Eq)]
pub struct PoolConfig {
    /// Identity of the pool owner, who receives proportional fees.
    pub owner: u64,
    /// Caller-chosen pool identifier.
    pub pool_id: String,
    /// Length of the emission window, in days.
    pub duration: u16,
    /// First reward-eligible slot; 0 while the pool is not yet started.
    pub start_slot: u64,
    /// Slot at which emission stops.
    pub end_slot: u64,
    /// Reward emitted per slot while the window is open.
    pub reward_per_slot: u64,
    /// Stake fee in basis points, at most `MAX_FEE`.
    pub stake_fee: u16,
    /// Unstake fee in basis points, at most `MAX_FEE`.
    pub unstake_fee: u16,
    /// Identity of the stake asset.
    pub stake_mint: u64,
    /// Identity of the reward asset.
    pub reward_mint: u64,
    /// Decimal count of the stake asset.
    pub stake_mint_decimals: u8,
    /// Decimal count of the reward asset, at most `PRECISION_DECIMALS`.
    pub reward_mint_decimals: u8,
    /// Identity of the vault holding staked assets.
    pub pool_stake_token_vault: u64,
    /// Identity of the vault holding reward assets.
    pub pool_reward_token_vault: u64,
    /// Identity of the record holding this pool's `PoolState`.
    pub state_addr: u64,
}

/// Per-pool mutable bookkeeping, advanced by every operation.
#[derive(Clone, Copy, Debug, PartialEq, Eq, Structural)]
pub struct PoolState {
    /// Sum of all users' staked amounts.
    pub total_staked: u64,
    /// Slot up to which rewards have been accrued.
    pub last_reward_slot: u64,
    /// Fixed-point reward earned per unit of stake since inception;
    /// never decreases.
    pub acc_token_per_share: u64,
    /// Funded reward balance not yet paid out.
    pub reward_amount: u64,
    /// Cumulative reward obligation accrued so far.
    pub should_total_paid: u64,
    /// Cumulative reward actually disbursed.
    pub paid_rewards: u64,
    /// Remaining disbursable balance bookkeeping, clamped at zero.
    pub total_earned: u64,
}

/// Per-(pool, user) ledger entry.
#[derive(Clone, Copy, Debug, PartialEq, Eq, Structural)]
pub struct UserInfo {
    /// The user's stake balance.
    pub staked_amount: u64,
    /// Accumulator-weighted amount already priced in, so it is not re-paid.
    pub reward_debt: u64,
    /// Slot of the user's first deposit.
    pub deposit_slot: u64,
}

/// A pool configuration the engine can operate on: fee rates within bounds
/// and a reward asset whose decimals the precision factor can absorb.
pub open spec fn config_valid(cfg: PoolConfig) -> bool {
    &&& cfg.stake_fee <= MAX_FEE
    &&& cfg.unstake_fee <= MAX_FEE
    &&& cfg.reward_mint_decimals <= PRECISION_DECIMALS
}

} // verus!
