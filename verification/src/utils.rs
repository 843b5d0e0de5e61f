//! The reward-accrual engine: multiplier, precision factor, and the lazy
//! settlement step that brings a pool's accumulator up to the present slot.

use vstd::prelude::*;

use crate::state::{config_valid, PoolConfig, PoolState, UserInfo, PRECISION_DECIMALS, SLOTS_PER_DAY};

verus! {

/// 10 to the power `e`.
pub open spec fn spec_pow10(e: nat) -> nat
    decreases e,
{
    if e == 0 {
        1
    } else {
        10 * spec_pow10((e - 1) as nat)
    }
}

/// Number of reward-eligible slots between `from_slot` and `to_slot`,
/// clipped at `pool_end_slot`. Meaningful for `from_slot <= to_slot`.
pub open spec fn spec_multiplier(from_slot: u64, to_slot: u64, pool_end_slot: u64) -> int {
    if to_slot <= pool_end_slot {
        to_slot - from_slot
    } else if from_slot >= pool_end_slot {
        0
    } else {
        pool_end_slot - from_slot
    }
}

/// The fixed-point scale that normalizes reward-per-share arithmetic of an
/// asset with `reward_mint_decimals` decimals to the common 9-decimal base.
pub open spec fn spec_precision_factor(reward_mint_decimals: u8) -> int
    recommends
        reward_mint_decimals <= PRECISION_DECIMALS,
{
    spec_pow10((PRECISION_DECIMALS - reward_mint_decimals) as nat) as int
}

/// Reward tokens that may still be paid out. When the reward asset and the
/// stake asset are the same, funds held as stake are not counted.
pub open spec fn spec_available(cfg: PoolConfig, st: PoolState) -> int {
    if cfg.reward_mint == cfg.stake_mint {
        if st.reward_amount < st.total_staked {
            0
        } else {
            st.reward_amount - st.total_staked
        }
    } else {
        st.reward_amount as int
    }
}

/// The user's reward accrued beyond what `reward_debt` already priced in,
/// measured against the pool's current accumulator.
pub open spec fn spec_pending(cfg: PoolConfig, st: PoolState, user: UserInfo) -> int {
    user.staked_amount * st.acc_token_per_share / spec_precision_factor(cfg.reward_mint_decimals)
        - user.reward_debt
}

/// The user's debt does not exceed what the pool's accumulator currently
/// attributes to the user. Every operation re-establishes the stronger
/// equality; between operations the accumulator can only have grown.
pub open spec fn debt_within_accrual(cfg: PoolConfig, st: PoolState, user: UserInfo) -> bool {
    user.reward_debt <= user.staked_amount * st.acc_token_per_share / spec_precision_factor(
        cfg.reward_mint_decimals,
    )
}

/// The settlement step's arithmetic stays within `u64` on these inputs.
pub open spec fn settle_fits(cfg: PoolConfig, st: PoolState, now: u64) -> bool {
    (now > st.last_reward_slot && st.last_reward_slot != 0 && st.total_staked != 0) ==> {
        let reward = spec_multiplier(st.last_reward_slot, now, cfg.end_slot)
            * cfg.reward_per_slot;
        let scaled = reward * spec_precision_factor(cfg.reward_mint_decimals);
        &&& reward <= u64::MAX
        &&& scaled <= u64::MAX
        &&& st.acc_token_per_share + scaled / st.total_staked as int <= u64::MAX
        &&& st.should_total_paid + reward <= u64::MAX
    }
}

/// The pool state after accruing rewards up to `now`: a no-op before the
/// pool starts or when `now` was already settled; otherwise the accumulator
/// absorbs the window-clipped emission divided over the current stake.
pub open spec fn settled(cfg: PoolConfig, st: PoolState, now: u64) -> PoolState {
    if now <= st.last_reward_slot || st.last_reward_slot == 0 {
        st
    } else if st.total_staked == 0 {
        PoolState { last_reward_slot: now, ..st }
    } else {
        let reward = spec_multiplier(st.last_reward_slot, now, cfg.end_slot)
            * cfg.reward_per_slot;
        let scaled = reward * spec_precision_factor(cfg.reward_mint_decimals);
        PoolState {
            last_reward_slot: now,
            acc_token_per_share: (st.acc_token_per_share + scaled / st.total_staked as int) as u64,
            should_total_paid: (st.should_total_paid + reward) as u64,
            ..st
        }
    }
}

/// 10 to the power `e`, for the small exponents the precision factor needs.
fn pow10(e: u8) -> (r: u64)
    requires
        e <= PRECISION_DECIMALS,
    ensures
        r == spec_pow10(e as nat),
{
    let mut r: u64 = 1;
    let mut i: u8 = 0;
    while i < e
        invariant
            i <= e,
            e <= PRECISION_DECIMALS,
            r == spec_pow10(i as nat),
        decreases e - i,
    {
        proof {
            lemma_pow10_monotonic(i as nat, (PRECISION_DECIMALS - 1) as nat);
            reveal_with_fuel(spec_pow10, 10);
            assert(spec_pow10((PRECISION_DECIMALS - 1) as nat) == 100000000);
        }
        r = r * 10;
        i = i + 1;
    }
    r
}

/// `spec_pow10` grows with its exponent.
pub proof fn lemma_pow10_monotonic(a: nat, b: nat)
    requires
        a <= b,
    ensures
        spec_pow10(a) <= spec_pow10(b),
    decreases b,
{
    if a < b {
        lemma_pow10_monotonic(a, (b - 1) as nat);
    }
}

/// The precision factor is positive, so dividing by it is meaningful.
pub proof fn lemma_precision_factor_at_least_one(reward_mint_decimals: u8)
    requires
        reward_mint_decimals <= PRECISION_DECIMALS,
    ensures
        spec_precision_factor(reward_mint_decimals) >= 1,
{
    lemma_pow10_monotonic(0, (PRECISION_DECIMALS - reward_mint_decimals) as nat);
}

/// Number of reward-eligible slots between `from_slot` and `to_slot`,
/// clipped at the pool's end slot so that nothing accrues past the window.
pub fn get_multiplier(from_slot: u64, to_slot: u64, pool_end_slot: u64) -> (r: u64)
    requires
        from_slot <= to_slot,
    ensures
        r == spec_multiplier(from_slot, to_slot, pool_end_slot),
{
    if to_slot <= pool_end_slot {
        to_slot - from_slot
    } else if from_slot >= pool_end_slot {
        0
    } else {
        pool_end_slot - from_slot
    }
}

/// The pool's fixed-point scaling factor, `10^(9 - reward decimals)`.
pub fn get_precision_factor(pool_config: &PoolConfig) -> (r: u64)
    requires
        pool_config.reward_mint_decimals <= PRECISION_DECIMALS,
    ensures
        r == spec_precision_factor(pool_config.reward_mint_decimals),
        r >= 1,
{
    let r = pow10(PRECISION_DECIMALS - pool_config.reward_mint_decimals);
    proof {
        lemma_pow10_monotonic(0, (PRECISION_DECIMALS - pool_config.reward_mint_decimals) as nat);
    }
    r
}

/// Bring the pool's reward accrual up to `now`: the first step of every
/// mutating operation. Before the pool starts, or when `now` was already
/// settled, nothing changes; with no stake only `last_reward_slot` advances;
/// otherwise the window-clipped emission since the last settlement is folded
/// into the accumulator and the cumulative obligation.
pub fn update_pool(pool_config: &PoolConfig, pool_state: &mut PoolState, now: u64)
    requires
        config_valid(*pool_config),
        settle_fits(*pool_config, *old(pool_state), now),
    ensures
        *final(pool_state) == settled(*pool_config, *old(pool_state), now),
        final(pool_state).acc_token_per_share >= old(pool_state).acc_token_per_share,
{
    if now <= pool_state.last_reward_slot || pool_state.last_reward_slot == 0 {
        return;
    }
    if pool_state.total_staked == 0 {
        pool_state.last_reward_slot = now;
        return;
    }

    let multiplier = get_multiplier(pool_state.last_reward_slot, now, pool_config.end_slot);
    let reward = multiplier * pool_config.reward_per_slot;
    let precision_factor = get_precision_factor(pool_config);

    pool_state.acc_token_per_share =
        pool_state.acc_token_per_share + (reward * precision_factor) / pool_state.total_staked;
    pool_state.last_reward_slot = now;
    pool_state.should_total_paid = pool_state.should_total_paid + reward;
}

/// Reward tokens that may still be paid out. When reward and stake assets
/// share a mint, the staked principal held in the same vault is excluded,
/// clamped at zero.
pub fn available_reward_tokens(pool_config: &PoolConfig, pool_state: &PoolState) -> (r: u64)
    ensures
        r == spec_available(*pool_config, *pool_state),
{
    let amount = pool_state.reward_amount;
    if pool_config.reward_mint == pool_config.stake_mint {
        if amount < pool_state.total_staked {
            return 0;
        }
        return amount - pool_state.total_staked;
    }
    amount
}

/// The shortfall `insufficient_rewards` reports: how far the funded balance
/// falls short of the obligation the pool will have accrued by its end.
pub open spec fn spec_insufficient_rewards(cfg: PoolConfig, st: PoolState) -> int {
    let remain_rewards = spec_available(cfg, st) + st.paid_rewards;
    let adjusted = st.should_total_paid + (if cfg.start_slot == 0 {
        cfg.reward_per_slot * cfg.duration * SLOTS_PER_DAY
    } else {
        cfg.reward_per_slot * spec_multiplier(st.last_reward_slot, cfg.end_slot, cfg.end_slot)
    });
    if remain_rewards >= adjusted {
        0
    } else {
        adjusted - remain_rewards
    }
}

/// The shortfall computation's arithmetic stays within `u64`.
pub open spec fn insufficient_fits(cfg: PoolConfig, st: PoolState) -> bool {
    &&& spec_available(cfg, st) + st.paid_rewards <= u64::MAX
    &&& cfg.start_slot == 0 ==> {
        &&& cfg.reward_per_slot * cfg.duration <= u64::MAX
        &&& cfg.reward_per_slot * cfg.duration * SLOTS_PER_DAY <= u64::MAX
        &&& st.should_total_paid + cfg.reward_per_slot * cfg.duration * SLOTS_PER_DAY <= u64::MAX
    }
    &&& cfg.start_slot != 0 ==> {
        let w = cfg.reward_per_slot * spec_multiplier(st.last_reward_slot, cfg.end_slot, cfg.end_slot);
        &&& w <= u64::MAX
        &&& st.should_total_paid + w <= u64::MAX
    }
}

/// How far the funded reward balance falls short of the obligation the pool
/// will have accrued by the end of its window: the emission still owed from
/// here to `end_slot` (the whole window, if not yet started) on top of what
/// has accrued, less what remains available and what was already paid.
pub fn insufficient_rewards(pool_config: &PoolConfig, pool_state: &PoolState) -> (r: u64)
    requires
        pool_config.start_slot != 0 ==> pool_state.last_reward_slot <= pool_config.end_slot,
        insufficient_fits(*pool_config, *pool_state),
    ensures
        r == spec_insufficient_rewards(*pool_config, *pool_state),
{
    let mut adjusted_should_total_paid = pool_state.should_total_paid;
    let remain_rewards = available_reward_tokens(pool_config, pool_state) + pool_state.paid_rewards;

    if pool_config.start_slot == 0 {
        adjusted_should_total_paid = adjusted_should_total_paid
            + pool_config.reward_per_slot * (pool_config.duration as u64) * SLOTS_PER_DAY;
    } else {
        let remain_blocks = get_multiplier(
            pool_state.last_reward_slot,
            pool_config.end_slot,
            pool_config.end_slot,
        );
        adjusted_should_total_paid = adjusted_should_total_paid
            + pool_config.reward_per_slot * remain_blocks;
    }

    if remain_rewards >= adjusted_should_total_paid {
        return 0;
    }
    adjusted_should_total_paid - remain_rewards
}

} // verus!
