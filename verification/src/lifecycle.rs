//! Pool lifecycle: platform setup, pool creation, and opening or closing the
//! emission window. The host performs the transfers these functions report
//! (initial funding, deploy fee, surplus return) and supplies the clock.

use vstd::prelude::*;

use crate::error::BrewStakingError;
use crate::events::NewStartAndEndSlots;
use crate::state::{
    config_valid, PlatformInfo, PoolConfig, PoolState, MAX_FEE, PRECISION_DECIMALS,
    SLOTS_PER_DAY, START_DELAY_SLOTS,
};
use crate::utils::{
    available_reward_tokens, settle_fits, settled, spec_available, update_pool,
};

verus! {

/// Record the platform's flat fees and treasury. Running this against an
/// already-initialized record overwrites the previous values.
pub fn initialize(platform: &mut PlatformInfo, treasury: u64, deploy_fee: u64, performance_fee: u64)
    ensures
        *final(platform) == (PlatformInfo { deploy_fee, performance_fee, treasury }),
{
    platform.treasury = treasury;
    platform.deploy_fee = deploy_fee;
    platform.performance_fee = performance_fee;
}

/// Validate fees and the creator's balance, and build a fresh pool: its
/// configuration, and a state funded with `initial_funding` and otherwise
/// zeroed. The host transfers `initial_funding` of the reward asset into the
/// pool's reward vault and the platform's `deploy_fee` to the treasury.
///
/// A reward asset with more than `PRECISION_DECIMALS` decimals cannot be
/// scaled to the common fixed-point base; that is a construction-time defect
/// the caller must rule out.
pub fn create_pool(
    platform: &PlatformInfo,
    creator: u64,
    creator_balance: u64,
    pool_id: String,
    stake_fee: u16,
    unstake_fee: u16,
    initial_funding: u64,
    reward_per_slot: u64,
    duration: u16,
    stake_mint: u64,
    reward_mint: u64,
    stake_mint_decimals: u8,
    reward_mint_decimals: u8,
    pool_stake_token_vault: u64,
    pool_reward_token_vault: u64,
    state_addr: u64,
) -> (result: Result<(PoolConfig, PoolState), BrewStakingError>)
    requires
        reward_mint_decimals <= PRECISION_DECIMALS,
    ensures
        match result {
            Ok(pool) => {
                &&& stake_fee <= MAX_FEE
                &&& unstake_fee <= MAX_FEE
                &&& creator_balance > platform.deploy_fee
                &&& pool.0 == (PoolConfig {
                    owner: creator,
                    pool_id: pool_id,
                    duration: duration,
                    start_slot: 0,
                    end_slot: 0,
                    reward_per_slot: reward_per_slot,
                    stake_fee: stake_fee,
                    unstake_fee: unstake_fee,
                    stake_mint: stake_mint,
                    reward_mint: reward_mint,
                    stake_mint_decimals: stake_mint_decimals,
                    reward_mint_decimals: reward_mint_decimals,
                    pool_stake_token_vault: pool_stake_token_vault,
                    pool_reward_token_vault: pool_reward_token_vault,
                    state_addr: state_addr,
                })
                &&& pool.1 == (PoolState {
                    total_staked: 0,
                    last_reward_slot: 0,
                    acc_token_per_share: 0,
                    reward_amount: initial_funding,
                    should_total_paid: 0,
                    paid_rewards: 0,
                    total_earned: 0,
                })
                &&& config_valid(pool.0)
            },
            Err(e) => {
                &&& (stake_fee > MAX_FEE || unstake_fee > MAX_FEE || creator_balance
                    <= platform.deploy_fee)
                &&& e == (if stake_fee > MAX_FEE {
                    BrewStakingError::InvalidStakeFee
                } else if unstake_fee > MAX_FEE {
                    BrewStakingError::InvalidUnstakeFee
                } else {
                    BrewStakingError::InsufficientDeployFee
                })
            },
        },
{
    if stake_fee > MAX_FEE {
        return Err(BrewStakingError::InvalidStakeFee);
    }
    if unstake_fee > MAX_FEE {
        return Err(BrewStakingError::InvalidUnstakeFee);
    }
    if creator_balance <= platform.deploy_fee {
        return Err(BrewStakingError::InsufficientDeployFee);
    }

    let pool_config = PoolConfig {
        owner: creator,
        pool_id: pool_id,
        duration: duration,
        start_slot: 0,
        end_slot: 0,
        reward_per_slot: reward_per_slot,
        stake_fee: stake_fee,
        unstake_fee: unstake_fee,
        stake_mint: stake_mint,
        reward_mint: reward_mint,
        stake_mint_decimals: stake_mint_decimals,
        reward_mint_decimals: reward_mint_decimals,
        pool_stake_token_vault: pool_stake_token_vault,
        pool_reward_token_vault: pool_reward_token_vault,
        state_addr: state_addr,
    };
    let pool_state = PoolState {
        total_staked: 0,
        last_reward_slot: 0,
        acc_token_per_share: 0,
        reward_amount: initial_funding,
        should_total_paid: 0,
        paid_rewards: 0,
        total_earned: 0,
    };
    Ok((pool_config, pool_state))
}

/// Choose the emission window, exactly once: it opens `START_DELAY_SLOTS`
/// after `now` and runs for `duration` days, and accrual bookkeeping starts
/// at the window's opening slot.
pub fn start_reward(pool_config: &mut PoolConfig, pool_state: &mut PoolState, now: u64) -> (result:
    Result<NewStartAndEndSlots, BrewStakingError>)
    requires
        old(pool_config).start_slot == 0 ==> now + START_DELAY_SLOTS + old(
            pool_config,
        ).duration * SLOTS_PER_DAY <= u64::MAX,
    ensures
        match result {
            Ok(window) => {
                &&& old(pool_config).start_slot == 0
                &&& window.start_slot == now + START_DELAY_SLOTS
                &&& window.end_slot == window.start_slot + old(pool_config).duration
                    * SLOTS_PER_DAY
                &&& *final(pool_config) == (PoolConfig {
                    start_slot: window.start_slot,
                    end_slot: window.end_slot,
                    ..*old(pool_config)
                })
                &&& *final(pool_state) == (PoolState {
                    last_reward_slot: window.start_slot,
                    ..*old(pool_state)
                })
            },
            Err(e) => {
                &&& old(pool_config).start_slot != 0
                &&& e == BrewStakingError::PoolAlreadyStarted
                &&& *final(pool_config) == *old(pool_config)
                &&& *final(pool_state) == *old(pool_state)
            },
        },
{
    if pool_config.start_slot != 0 {
        return Err(BrewStakingError::PoolAlreadyStarted);
    }

    pool_config.start_slot = now + START_DELAY_SLOTS;
    pool_config.end_slot = pool_config.start_slot + (pool_config.duration as u64) * SLOTS_PER_DAY;
    pool_state.last_reward_slot = pool_config.start_slot;

    Ok(NewStartAndEndSlots { start_slot: pool_config.start_slot, end_slot: pool_config.end_slot })
}

/// Settle the pool up to `now`, return any surplus above the accrued
/// obligation to the pool owner, and close the window at `now` so that no
/// further settlement accrues anything. The returned surplus is what the
/// host must transfer from the reward vault to the owner; `total_earned` is
/// reduced by it, clamped at zero.
pub fn stop_reward(pool_config: &mut PoolConfig, pool_state: &mut PoolState, now: u64) -> (surplus:
    u64)
    requires
        config_valid(*old(pool_config)),
        settle_fits(*old(pool_config), *old(pool_state), now),
        spec_available(*old(pool_config), settled(*old(pool_config), *old(pool_state), now))
            + settled(*old(pool_config), *old(pool_state), now).paid_rewards <= u64::MAX,
    ensures
        ({
            let st1 = settled(*old(pool_config), *old(pool_state), now);
            let remain = spec_available(*old(pool_config), st1) + st1.paid_rewards;
            &&& *final(pool_config) == (PoolConfig { end_slot: now, ..*old(pool_config) })
            &&& surplus == (if remain > st1.should_total_paid {
                remain - st1.should_total_paid
            } else {
                0
            })
            &&& *final(pool_state) == (PoolState {
                total_earned: (if remain > st1.should_total_paid {
                    if st1.total_earned > remain - st1.should_total_paid {
                        (st1.total_earned - (remain - st1.should_total_paid)) as u64
                    } else {
                        0
                    }
                } else {
                    st1.total_earned
                }),
                ..st1
            })
        }),
{
    update_pool(pool_config, pool_state, now);

    let available = available_reward_tokens(pool_config, pool_state);
    let remain_rewards = available + pool_state.paid_rewards;

    let mut surplus: u64 = 0;
    if remain_rewards > pool_state.should_total_paid {
        surplus = remain_rewards - pool_state.should_total_paid;
        if pool_state.total_earned > surplus {
            pool_state.total_earned = pool_state.total_earned - surplus;
        } else {
            pool_state.total_earned = 0;
        }
    }

    pool_config.end_slot = now;
    surplus
}

} // verus!
