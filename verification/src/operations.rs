//! Stake, unstake, claim, compound, and the pending-reward query.
//!
//! Each mutating operation settles the pool first, then updates the user's
//! ledger, re-establishing the core invariant: afterwards `reward_debt`
//! equals `staked_amount * acc_token_per_share / precision_factor` exactly.
//! An operation either succeeds with every bookkeeping change applied, or
//! returns an error with the pool and user records untouched; the transfers
//! a success requires are reported in the outcome for the host to perform.

use vstd::arithmetic::div_mod::{
    lemma_div_is_ordered, lemma_div_multiples_vanish, lemma_div_pos_is_pos,
};
use vstd::arithmetic::mul::{
    lemma_mul_inequality, lemma_mul_is_commutative, lemma_mul_left_inequality,
    lemma_mul_nonnegative,
};
use vstd::prelude::*;

use crate::error::BrewStakingError;
use crate::state::{
    config_valid, PlatformInfo, PoolConfig, PoolState, UserInfo, PERCENT_PRECISION,
    PRECISION_DECIMALS,
};
use crate::utils::{
    available_reward_tokens, debt_within_accrual, get_precision_factor,
    lemma_precision_factor_at_least_one, settle_fits, settled, spec_available, spec_pending,
    spec_precision_factor, update_pool,
};

verus! {

/// What a successful claim asks of the host: pay `reward_paid` of the
/// reward asset from the pool's reward vault to the claimer.
#[derive(Clone, Copy, Debug, PartialEq, Eq, Structural)]
pub struct ClaimOutcome {
    pub reward_paid: u64,
}

/// The settlement only grows the accumulator, and division by the precision
/// factor preserves order, so a debt recorded against an older accumulator
/// value is still covered after settling.
proof fn lemma_debt_still_within(cfg: PoolConfig, st0: PoolState, st1: PoolState, user: UserInfo)
    requires
        cfg.reward_mint_decimals <= PRECISION_DECIMALS,
        debt_within_accrual(cfg, st0, user),
        st1.acc_token_per_share >= st0.acc_token_per_share,
    ensures
        user.reward_debt <= user.staked_amount * st1.acc_token_per_share / spec_precision_factor(
            cfg.reward_mint_decimals,
        ),
{
    let pf = spec_precision_factor(cfg.reward_mint_decimals);
    lemma_precision_factor_at_least_one(cfg.reward_mint_decimals);
    lemma_mul_inequality(
        st0.acc_token_per_share as int,
        st1.acc_token_per_share as int,
        user.staked_amount as int,
    );
    lemma_mul_is_commutative(user.staked_amount as int, st0.acc_token_per_share as int);
    lemma_mul_is_commutative(user.staked_amount as int, st1.acc_token_per_share as int);
    lemma_div_is_ordered(
        user.staked_amount * st0.acc_token_per_share,
        user.staked_amount * st1.acc_token_per_share,
        pf,
    );
}

/// A proportional fee taken in basis points.
pub open spec fn spec_fee(amount: u64, fee_bps: u16) -> int {
    amount * fee_bps / (PERCENT_PRECISION as int)
}

/// A basis-point fee is never negative and never exceeds the amount it is
/// taken from.
proof fn lemma_fee_bound(amount: u64, fee_bps: u16)
    requires
        fee_bps <= PERCENT_PRECISION,
    ensures
        0 <= spec_fee(amount, fee_bps) <= amount,
{
    lemma_mul_nonnegative(amount as int, fee_bps as int);
    lemma_div_pos_is_pos(amount * fee_bps, PERCENT_PRECISION as int);
    if amount > 0 {
        lemma_mul_left_inequality(amount as int, fee_bps as int, PERCENT_PRECISION as int);
        lemma_mul_is_commutative(amount as int, PERCENT_PRECISION as int);
        lemma_div_multiples_vanish(amount as int, PERCENT_PRECISION as int);
        lemma_div_is_ordered(
            amount * fee_bps,
            amount * (PERCENT_PRECISION as int),
            PERCENT_PRECISION as int,
        );
    }
}

/// The claim's arithmetic stays within `u64` on these inputs.
pub open spec fn claim_fits(cfg: PoolConfig, st: PoolState, user: UserInfo, now: u64) -> bool {
    let st1 = settled(cfg, st, now);
    &&& user.staked_amount * st1.acc_token_per_share <= u64::MAX
    &&& (user.staked_amount > 0 && spec_pending(cfg, st1, user) > 0 ==> st1.paid_rewards
        + spec_pending(cfg, st1, user) <= u64::MAX)
}

/// Settle the pool, pay the user's pending reward, and re-price the debt.
///
/// With no stake the settlement still commits but nothing is paid and the
/// debt is untouched. Success requires the claimer's balance to exceed the
/// flat performance fee (owed to the treasury) and, when a payout is due,
/// the pool to have enough reward tokens available; otherwise nothing
/// changes. Afterwards `reward_debt` equals the accumulator-weighted stake.
pub fn claim_reward(
    platform: &PlatformInfo,
    pool_config: &PoolConfig,
    pool_state: &mut PoolState,
    user_info: &mut UserInfo,
    claimer_balance: u64,
    now: u64,
) -> (result: Result<ClaimOutcome, BrewStakingError>)
    requires
        config_valid(*pool_config),
        settle_fits(*pool_config, *old(pool_state), now),
        debt_within_accrual(*pool_config, *old(pool_state), *old(user_info)),
        claim_fits(*pool_config, *old(pool_state), *old(user_info), now),
    ensures
        result is Ok ==> debt_within_accrual(*pool_config, *final(pool_state), *final(user_info)),
        ({
            let st1 = settled(*pool_config, *old(pool_state), now);
            let pf = spec_precision_factor(pool_config.reward_mint_decimals);
            let p = spec_pending(*pool_config, st1, *old(user_info));
            match result {
                Ok(out) => {
                    &&& claimer_balance > platform.performance_fee
                    &&& *final(user_info) == (if old(user_info).staked_amount == 0 {
                        *old(user_info)
                    } else {
                        UserInfo {
                            reward_debt: (old(user_info).staked_amount * st1.acc_token_per_share
                                / pf) as u64,
                            ..*old(user_info)
                        }
                    })
                    &&& *final(pool_state) == (if old(user_info).staked_amount > 0 && p > 0 {
                        PoolState {
                            reward_amount: (st1.reward_amount - p) as u64,
                            total_earned: (if st1.total_earned > p {
                                (st1.total_earned - p) as u64
                            } else {
                                0
                            }),
                            paid_rewards: (st1.paid_rewards + p) as u64,
                            ..st1
                        }
                    } else {
                        st1
                    })
                    &&& old(user_info).staked_amount > 0 && p > 0 ==> spec_available(
                        *pool_config,
                        st1,
                    ) >= p
                    &&& out.reward_paid == (if old(user_info).staked_amount > 0 && p > 0 {
                        p
                    } else {
                        0
                    })
                },
                Err(e) => {
                    &&& *final(pool_state) == *old(pool_state)
                    &&& *final(user_info) == *old(user_info)
                    &&& (claimer_balance <= platform.performance_fee || (old(
                        user_info,
                    ).staked_amount > 0 && p > 0 && spec_available(*pool_config, st1) < p))
                    &&& e == (if claimer_balance <= platform.performance_fee {
                        BrewStakingError::InsufficientDeployFee
                    } else {
                        BrewStakingError::InsufficientReward
                    })
                },
            }
        }),
{
    if claimer_balance <= platform.performance_fee {
        return Err(BrewStakingError::InsufficientDeployFee);
    }

    let mut st = *pool_state;
    update_pool(pool_config, &mut st, now);
    proof {
        lemma_debt_still_within(*pool_config, *old(pool_state), st, *user_info);
    }

    if user_info.staked_amount == 0 {
        *pool_state = st;
        return Ok(ClaimOutcome { reward_paid: 0 });
    }

    let precision_factor = get_precision_factor(pool_config);
    let pending = user_info.staked_amount * st.acc_token_per_share / precision_factor
        - user_info.reward_debt;

    let mut reward_paid: u64 = 0;
    if pending > 0 {
        if available_reward_tokens(pool_config, &st) < pending {
            return Err(BrewStakingError::InsufficientReward);
        }
        st.reward_amount = st.reward_amount - pending;
        st.total_earned = if st.total_earned > pending {
            st.total_earned - pending
        } else {
            0
        };
        st.paid_rewards = st.paid_rewards + pending;
        reward_paid = pending;
    }

    user_info.reward_debt = user_info.staked_amount * st.acc_token_per_share / precision_factor;
    *pool_state = st;
    Ok(ClaimOutcome { reward_paid })
}

/// What a successful stake asks of the host: move the full deposit from
/// the staker's stake vault into the pool's, forward `stake_fee` of it from
/// the pool vault to the pool owner, and pay `reward_paid` of the reward
/// asset to the staker. `real_amount` is what was credited to the position.
#[derive(Clone, Copy, Debug, PartialEq, Eq, Structural)]
pub struct StakeOutcome {
    pub reward_paid: u64,
    pub stake_fee: u64,
    pub real_amount: u64,
}

/// The stake's arithmetic stays within `u64` on these inputs.
pub open spec fn stake_fits(
    cfg: PoolConfig,
    st: PoolState,
    user: UserInfo,
    stake_amount: u64,
    now: u64,
) -> bool {
    let st1 = settled(cfg, st, now);
    let net_amount = stake_amount - spec_fee(stake_amount, cfg.stake_fee);
    &&& stake_amount * cfg.stake_fee <= u64::MAX
    &&& user.staked_amount + net_amount <= u64::MAX
    &&& st1.total_staked + net_amount <= u64::MAX
    &&& (user.staked_amount + net_amount) * st1.acc_token_per_share <= u64::MAX
    &&& (user.staked_amount > 0 && spec_pending(cfg, st1, user) > 0 ==> st1.paid_rewards
        + spec_pending(cfg, st1, user) <= u64::MAX)
}

/// Settle the pool, pay any reward already pending on an existing position,
/// then credit the deposit net of the proportional stake fee to the user
/// and the pool total, and re-price the debt against the settled
/// accumulator.
///
/// Success requires an active pool (the start slot set and passed), a
/// staker balance exceeding the flat performance fee, and, when a payout is
/// due, enough reward tokens available; otherwise nothing changes.
pub fn stake(
    platform: &PlatformInfo,
    pool_config: &PoolConfig,
    pool_state: &mut PoolState,
    user_info: &mut UserInfo,
    staker_balance: u64,
    stake_amount: u64,
    now: u64,
) -> (result: Result<StakeOutcome, BrewStakingError>)
    requires
        config_valid(*pool_config),
        settle_fits(*pool_config, *old(pool_state), now),
        debt_within_accrual(*pool_config, *old(pool_state), *old(user_info)),
        stake_fits(*pool_config, *old(pool_state), *old(user_info), stake_amount, now),
    ensures
        result is Ok ==> debt_within_accrual(*pool_config, *final(pool_state), *final(user_info)),
        ({
            let st1 = settled(*pool_config, *old(pool_state), now);
            let pf = spec_precision_factor(pool_config.reward_mint_decimals);
            let p = spec_pending(*pool_config, st1, *old(user_info));
            let pays = old(user_info).staked_amount > 0 && p > 0;
            let fee = spec_fee(stake_amount, pool_config.stake_fee);
            let net_amount = stake_amount - fee;
            match result {
                Ok(out) => {
                    &&& pool_config.start_slot > 0 && pool_config.start_slot < now
                    &&& staker_balance > platform.performance_fee
                    &&& pays ==> spec_available(*pool_config, st1) >= p
                    &&& *final(user_info) == (UserInfo {
                        staked_amount: (old(user_info).staked_amount + net_amount) as u64,
                        reward_debt: ((old(user_info).staked_amount + net_amount)
                            * st1.acc_token_per_share / pf) as u64,
                        ..*old(user_info)
                    })
                    &&& *final(pool_state) == (PoolState {
                        total_staked: (st1.total_staked + net_amount) as u64,
                        reward_amount: (if pays {
                            (st1.reward_amount - p) as u64
                        } else {
                            st1.reward_amount
                        }),
                        total_earned: (if pays {
                            if st1.total_earned > p {
                                (st1.total_earned - p) as u64
                            } else {
                                0
                            }
                        } else {
                            st1.total_earned
                        }),
                        paid_rewards: (if pays {
                            (st1.paid_rewards + p) as u64
                        } else {
                            st1.paid_rewards
                        }),
                        ..st1
                    })
                    &&& out.reward_paid == (if pays {
                        p
                    } else {
                        0
                    })
                    &&& out.stake_fee == fee
                    &&& out.real_amount == net_amount
                },
                Err(e) => {
                    &&& *final(pool_state) == *old(pool_state)
                    &&& *final(user_info) == *old(user_info)
                    &&& (!(pool_config.start_slot > 0 && pool_config.start_slot < now)
                        || staker_balance <= platform.performance_fee || (pays && spec_available(
                        *pool_config,
                        st1,
                    ) < p))
                    &&& e == (if !(pool_config.start_slot > 0 && pool_config.start_slot < now) {
                        BrewStakingError::PoolNotStarted
                    } else if staker_balance <= platform.performance_fee {
                        BrewStakingError::InsufficientDeployFee
                    } else {
                        BrewStakingError::InsufficientReward
                    })
                },
            }
        }),
{
    if !(pool_config.start_slot > 0 && pool_config.start_slot < now) {
        return Err(BrewStakingError::PoolNotStarted);
    }
    if staker_balance <= platform.performance_fee {
        return Err(BrewStakingError::InsufficientDeployFee);
    }

    let mut st = *pool_state;
    update_pool(pool_config, &mut st, now);

    let precision_factor = get_precision_factor(pool_config);
    proof {
        lemma_fee_bound(stake_amount, pool_config.stake_fee);
    }

    let mut reward_paid: u64 = 0;
    if user_info.staked_amount > 0 {
        proof {
            lemma_debt_still_within(*pool_config, *old(pool_state), st, *user_info);
            lemma_mul_inequality(
                old(user_info).staked_amount as int,
                old(user_info).staked_amount + stake_amount - spec_fee(
                    stake_amount,
                    pool_config.stake_fee,
                ),
                st.acc_token_per_share as int,
            );
        }
        let pending = user_info.staked_amount * st.acc_token_per_share / precision_factor
            - user_info.reward_debt;
        if pending > 0 {
            if available_reward_tokens(pool_config, &st) < pending {
                return Err(BrewStakingError::InsufficientReward);
            }
            st.reward_amount = st.reward_amount - pending;
            st.total_earned = if st.total_earned > pending {
                st.total_earned - pending
            } else {
                0
            };
            st.paid_rewards = st.paid_rewards + pending;
            reward_paid = pending;
        }
    }

    let stake_fee = stake_amount * (pool_config.stake_fee as u64) / PERCENT_PRECISION;
    let real_amount = stake_amount - stake_fee;

    user_info.staked_amount = user_info.staked_amount + real_amount;
    user_info.reward_debt = user_info.staked_amount * st.acc_token_per_share / precision_factor;
    st.total_staked = st.total_staked + real_amount;
    *pool_state = st;

    Ok(StakeOutcome { reward_paid, stake_fee, real_amount })
}

/// What a successful unstake asks of the host: send `unstake_fee` of the
/// stake asset from the pool vault to the pool owner, return `returned` to
/// the user, and pay `reward_paid` of the reward asset to the user.
#[derive(Clone, Copy, Debug, PartialEq, Eq, Structural)]
pub struct UnstakeOutcome {
    pub reward_paid: u64,
    pub unstake_fee: u64,
    pub returned: u64,
}

/// The unstake's arithmetic stays within `u64` on these inputs.
pub open spec fn unstake_fits(
    cfg: PoolConfig,
    st: PoolState,
    user: UserInfo,
    unstake_amount: u64,
    now: u64,
) -> bool {
    let st1 = settled(cfg, st, now);
    &&& user.staked_amount * st1.acc_token_per_share <= u64::MAX
    &&& unstake_amount * cfg.unstake_fee <= u64::MAX
    &&& (user.staked_amount > 0 && spec_pending(cfg, st1, user) > 0 ==> st1.paid_rewards
        + spec_pending(cfg, st1, user) <= u64::MAX)
}

/// Settle the pool, pay the reward pending on the position, then release
/// `unstake_amount` from the user's stake and the pool total, net of the
/// proportional unstake fee, and re-price the debt.
///
/// The boundary is strict: a withdrawal of the whole position is rejected,
/// so a position can never be drained through this call. Success further
/// requires a balance exceeding the flat performance fee and, when a payout
/// is due, enough reward tokens available; otherwise nothing changes.
pub fn unstake(
    platform: &PlatformInfo,
    pool_config: &PoolConfig,
    pool_state: &mut PoolState,
    user_info: &mut UserInfo,
    user_balance: u64,
    unstake_amount: u64,
    now: u64,
) -> (result: Result<UnstakeOutcome, BrewStakingError>)
    requires
        config_valid(*pool_config),
        settle_fits(*pool_config, *old(pool_state), now),
        debt_within_accrual(*pool_config, *old(pool_state), *old(user_info)),
        old(user_info).staked_amount <= old(pool_state).total_staked,
        unstake_fits(*pool_config, *old(pool_state), *old(user_info), unstake_amount, now),
    ensures
        result is Ok ==> debt_within_accrual(*pool_config, *final(pool_state), *final(user_info)),
        ({
            let st1 = settled(*pool_config, *old(pool_state), now);
            let pf = spec_precision_factor(pool_config.reward_mint_decimals);
            let p = spec_pending(*pool_config, st1, *old(user_info));
            let pays = old(user_info).staked_amount > 0 && p > 0;
            let fee = spec_fee(unstake_amount, pool_config.unstake_fee);
            match result {
                Ok(out) => {
                    &&& unstake_amount > 0
                    &&& old(user_info).staked_amount > unstake_amount
                    &&& user_balance > platform.performance_fee
                    &&& pays ==> spec_available(*pool_config, st1) >= p
                    &&& *final(user_info) == (UserInfo {
                        staked_amount: (old(user_info).staked_amount - unstake_amount) as u64,
                        reward_debt: ((old(user_info).staked_amount - unstake_amount)
                            * st1.acc_token_per_share / pf) as u64,
                        ..*old(user_info)
                    })
                    &&& *final(pool_state) == (PoolState {
                        total_staked: (st1.total_staked - unstake_amount) as u64,
                        reward_amount: (if pays {
                            (st1.reward_amount - p) as u64
                        } else {
                            st1.reward_amount
                        }),
                        total_earned: (if pays {
                            if st1.total_earned > p {
                                (st1.total_earned - p) as u64
                            } else {
                                0
                            }
                        } else {
                            st1.total_earned
                        }),
                        paid_rewards: (if pays {
                            (st1.paid_rewards + p) as u64
                        } else {
                            st1.paid_rewards
                        }),
                        ..st1
                    })
                    &&& out.reward_paid == (if pays {
                        p
                    } else {
                        0
                    })
                    &&& out.unstake_fee == fee
                    &&& out.returned == unstake_amount - fee
                },
                Err(e) => {
                    &&& *final(pool_state) == *old(pool_state)
                    &&& *final(user_info) == *old(user_info)
                    &&& (unstake_amount == 0 || old(user_info).staked_amount <= unstake_amount
                        || user_balance <= platform.performance_fee || (pays && spec_available(
                        *pool_config,
                        st1,
                    ) < p))
                    &&& e == (if unstake_amount == 0 {
                        BrewStakingError::UnstakeAmountTooSmall
                    } else if old(user_info).staked_amount <= unstake_amount {
                        BrewStakingError::UnstakeAmountTooHigh
                    } else if user_balance <= platform.performance_fee {
                        BrewStakingError::InsufficientDeployFee
                    } else {
                        BrewStakingError::InsufficientReward
                    })
                },
            }
        }),
{
    if unstake_amount == 0 {
        return Err(BrewStakingError::UnstakeAmountTooSmall);
    }
    if user_info.staked_amount <= unstake_amount {
        return Err(BrewStakingError::UnstakeAmountTooHigh);
    }
    if user_balance <= platform.performance_fee {
        return Err(BrewStakingError::InsufficientDeployFee);
    }

    let mut st = *pool_state;
    update_pool(pool_config, &mut st, now);

    let precision_factor = get_precision_factor(pool_config);
    proof {
        lemma_fee_bound(unstake_amount, pool_config.unstake_fee);
        lemma_debt_still_within(*pool_config, *old(pool_state), st, *user_info);
        lemma_mul_inequality(
            old(user_info).staked_amount - unstake_amount,
            old(user_info).staked_amount as int,
            st.acc_token_per_share as int,
        );
        lemma_mul_nonnegative(
            old(user_info).staked_amount - unstake_amount,
            st.acc_token_per_share as int,
        );
    }

    let mut reward_paid: u64 = 0;
    let pending = user_info.staked_amount * st.acc_token_per_share / precision_factor
        - user_info.reward_debt;
    if pending > 0 {
        if available_reward_tokens(pool_config, &st) < pending {
            return Err(BrewStakingError::InsufficientReward);
        }
        st.reward_amount = st.reward_amount - pending;
        st.total_earned = if st.total_earned > pending {
            st.total_earned - pending
        } else {
            0
        };
        st.paid_rewards = st.paid_rewards + pending;
        reward_paid = pending;
    }

    // The strict bound above means the requested amount never needs
    // clamping to the position.
    let unstake_fee = unstake_amount * (pool_config.unstake_fee as u64) / PERCENT_PRECISION;
    let returned = unstake_amount - unstake_fee;

    user_info.staked_amount = user_info.staked_amount - unstake_amount;
    user_info.reward_debt = user_info.staked_amount * st.acc_token_per_share / precision_factor;
    st.total_staked = st.total_staked - unstake_amount;
    *pool_state = st;

    Ok(UnstakeOutcome { reward_paid, unstake_fee, returned })
}

/// How a compound left the pool, and what it asks of the host.
#[derive(Clone, Copy, Debug, PartialEq, Eq, Structural)]
pub enum CompoundOutcome {
    /// The user has no stake: the settlement committed, nothing else moved.
    NoStake,
    /// `amount` of pending reward was credited straight to the position
    /// (zero when nothing was pending). Nothing leaves the pool's vaults.
    Credited { amount: u64 },
    /// The reward asset differs from the stake asset: the host must swap
    /// `pending` of the reward asset for the stake asset, measure the
    /// amount actually received as the stake-vault balance delta, and hand
    /// it to `compound_credit` to finish the operation.
    SwapRequired { pending: u64 },
}

/// The compound's arithmetic stays within `u64` on these inputs.
pub open spec fn compound_fits(cfg: PoolConfig, st: PoolState, user: UserInfo, now: u64) -> bool {
    let st1 = settled(cfg, st, now);
    let p = spec_pending(cfg, st1, user);
    &&& user.staked_amount * st1.acc_token_per_share <= u64::MAX
    &&& (user.staked_amount > 0 && p > 0 ==> st1.paid_rewards + p <= u64::MAX)
    &&& (user.staked_amount > 0 && p > 0 && cfg.stake_mint == cfg.reward_mint ==> {
        &&& user.staked_amount + p <= u64::MAX
        &&& st1.total_staked + p <= u64::MAX
        &&& (user.staked_amount + p) * st1.acc_token_per_share <= u64::MAX
    })
}

/// Settle the pool and route the user's pending reward back into the
/// position instead of paying it out. When the reward asset is the stake
/// asset the pending amount is credited directly; otherwise the operation
/// stops at `SwapRequired` with the pool's payout bookkeeping advanced, and
/// `compound_credit` finishes it once the host has swapped and measured
/// what actually arrived. The funded `reward_amount` is not reduced: the
/// reward either stays in the shared vault or is consumed by the swap.
///
/// Success requires a balance exceeding the flat performance fee and, when
/// a reward is pending, enough reward tokens available; otherwise nothing
/// changes.
pub fn compound_reward(
    platform: &PlatformInfo,
    pool_config: &PoolConfig,
    pool_state: &mut PoolState,
    user_info: &mut UserInfo,
    user_balance: u64,
    now: u64,
) -> (result: Result<CompoundOutcome, BrewStakingError>)
    requires
        config_valid(*pool_config),
        settle_fits(*pool_config, *old(pool_state), now),
        debt_within_accrual(*pool_config, *old(pool_state), *old(user_info)),
        compound_fits(*pool_config, *old(pool_state), *old(user_info), now),
    ensures
        result is Ok ==> debt_within_accrual(*pool_config, *final(pool_state), *final(user_info)),
        ({
            let st1 = settled(*pool_config, *old(pool_state), now);
            let pf = spec_precision_factor(pool_config.reward_mint_decimals);
            let p = spec_pending(*pool_config, st1, *old(user_info));
            match result {
                Ok(out) => {
                    &&& user_balance > platform.performance_fee
                    &&& match out {
                        CompoundOutcome::NoStake => {
                            &&& old(user_info).staked_amount == 0
                            &&& *final(pool_state) == st1
                            &&& *final(user_info) == *old(user_info)
                        },
                        CompoundOutcome::Credited { amount } => {
                            &&& old(user_info).staked_amount > 0
                            &&& p > 0 ==> pool_config.stake_mint == pool_config.reward_mint
                                && spec_available(*pool_config, st1) >= p
                            &&& amount == (if p > 0 {
                                p
                            } else {
                                0
                            })
                            &&& *final(user_info) == (UserInfo {
                                staked_amount: (old(user_info).staked_amount + amount) as u64,
                                reward_debt: ((old(user_info).staked_amount + amount)
                                    * st1.acc_token_per_share / pf) as u64,
                                ..*old(user_info)
                            })
                            &&& *final(pool_state) == (PoolState {
                                total_staked: (st1.total_staked + amount) as u64,
                                total_earned: (if p > 0 {
                                    if st1.total_earned > p {
                                        (st1.total_earned - p) as u64
                                    } else {
                                        0
                                    }
                                } else {
                                    st1.total_earned
                                }),
                                paid_rewards: (if p > 0 {
                                    (st1.paid_rewards + p) as u64
                                } else {
                                    st1.paid_rewards
                                }),
                                ..st1
                            })
                        },
                        CompoundOutcome::SwapRequired { pending } => {
                            &&& old(user_info).staked_amount > 0
                            &&& p > 0
                            &&& pool_config.stake_mint != pool_config.reward_mint
                            &&& spec_available(*pool_config, st1) >= p
                            &&& pending == p
                            &&& *final(user_info) == *old(user_info)
                            &&& *final(pool_state) == (PoolState {
                                total_earned: (if st1.total_earned > p {
                                    (st1.total_earned - p) as u64
                                } else {
                                    0
                                }),
                                paid_rewards: (st1.paid_rewards + p) as u64,
                                ..st1
                            })
                        },
                    }
                },
                Err(e) => {
                    &&& *final(pool_state) == *old(pool_state)
                    &&& *final(user_info) == *old(user_info)
                    &&& (user_balance <= platform.performance_fee || (old(
                        user_info,
                    ).staked_amount > 0 && p > 0 && spec_available(*pool_config, st1) < p))
                    &&& e == (if user_balance <= platform.performance_fee {
                        BrewStakingError::InsufficientDeployFee
                    } else {
                        BrewStakingError::InsufficientReward
                    })
                },
            }
        }),
{
    if user_balance <= platform.performance_fee {
        return Err(BrewStakingError::InsufficientDeployFee);
    }

    let mut st = *pool_state;
    update_pool(pool_config, &mut st, now);
    proof {
        lemma_debt_still_within(*pool_config, *old(pool_state), st, *user_info);
    }

    if user_info.staked_amount == 0 {
        *pool_state = st;
        return Ok(CompoundOutcome::NoStake);
    }

    let precision_factor = get_precision_factor(pool_config);
    let pending = user_info.staked_amount * st.acc_token_per_share / precision_factor
        - user_info.reward_debt;

    if pending > 0 {
        if available_reward_tokens(pool_config, &st) < pending {
            return Err(BrewStakingError::InsufficientReward);
        }
        st.total_earned = if st.total_earned > pending {
            st.total_earned - pending
        } else {
            0
        };
        st.paid_rewards = st.paid_rewards + pending;

        if pool_config.stake_mint != pool_config.reward_mint {
            *pool_state = st;
            return Ok(CompoundOutcome::SwapRequired { pending });
        }

        user_info.staked_amount = user_info.staked_amount + pending;
        st.total_staked = st.total_staked + pending;
        user_info.reward_debt = user_info.staked_amount * st.acc_token_per_share
            / precision_factor;
        *pool_state = st;
        return Ok(CompoundOutcome::Credited { amount: pending });
    }

    user_info.reward_debt = user_info.staked_amount * st.acc_token_per_share / precision_factor;
    *pool_state = st;
    Ok(CompoundOutcome::Credited { amount: 0 })
}

/// Finish a compound that `SwapRequired` interrupted: credit the amount the
/// swap actually delivered to the position and the pool total, and re-price
/// the debt against the pool's current accumulator. The host measures
/// `received` as the stake-vault balance delta around the swap, so slippage
/// is absorbed here rather than trusted from the venue's quote.
pub fn compound_credit(
    pool_config: &PoolConfig,
    pool_state: &mut PoolState,
    user_info: &mut UserInfo,
    received: u64,
) -> (deposited: u64)
    requires
        config_valid(*pool_config),
        old(user_info).staked_amount + received <= u64::MAX,
        old(pool_state).total_staked + received <= u64::MAX,
        (old(user_info).staked_amount + received) * old(pool_state).acc_token_per_share
            <= u64::MAX,
    ensures
        debt_within_accrual(*pool_config, *final(pool_state), *final(user_info)),
        *final(pool_state) == (PoolState {
            total_staked: (old(pool_state).total_staked + received) as u64,
            ..*old(pool_state)
        }),
        *final(user_info) == (UserInfo {
            staked_amount: (old(user_info).staked_amount + received) as u64,
            reward_debt: ((old(user_info).staked_amount + received)
                * old(pool_state).acc_token_per_share / spec_precision_factor(
                pool_config.reward_mint_decimals,
            )) as u64,
            ..*old(user_info)
        }),
        deposited == received,
{
    let precision_factor = get_precision_factor(pool_config);
    user_info.staked_amount = user_info.staked_amount + received;
    pool_state.total_staked = pool_state.total_staked + received;
    user_info.reward_debt = user_info.staked_amount * pool_state.acc_token_per_share
        / precision_factor;
    received
}

/// The user's reward accrued up to `now`, as the settlement would see it,
/// without committing anything: the read-only query behind `pending_reward`.
pub fn pending_reward(
    pool_config: &PoolConfig,
    pool_state: &PoolState,
    user_info: &UserInfo,
    now: u64,
) -> (r: u64)
    requires
        config_valid(*pool_config),
        settle_fits(*pool_config, *pool_state, now),
        debt_within_accrual(*pool_config, *pool_state, *user_info),
        user_info.staked_amount * settled(*pool_config, *pool_state, now).acc_token_per_share
            <= u64::MAX,
    ensures
        r == spec_pending(*pool_config, settled(*pool_config, *pool_state, now), *user_info),
{
    let mut st = *pool_state;
    update_pool(pool_config, &mut st, now);
    let precision_factor = get_precision_factor(pool_config);
    proof {
        lemma_debt_still_within(*pool_config, *pool_state, st, *user_info);
    }
    user_info.staked_amount * st.acc_token_per_share / precision_factor - user_info.reward_debt
}

} // verus!
