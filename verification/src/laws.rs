//! Engine-wide laws, stated and proved over the settlement model.

use vstd::arithmetic::div_mod::lemma_div_pos_is_pos;
use vstd::arithmetic::mul::lemma_mul_nonnegative;
use vstd::prelude::*;

use crate::state::{PoolConfig, PoolState, PRECISION_DECIMALS};
use crate::utils::{
    lemma_precision_factor_at_least_one, settle_fits, settled, spec_multiplier,
    spec_precision_factor,
};

verus! {

/// One settlement never decreases the accumulator: the accrued share is a
/// quotient of non-negative quantities added on top of the old value.
pub proof fn lemma_settle_acc_monotonic(cfg: PoolConfig, st: PoolState, now: u64)
    requires
        cfg.reward_mint_decimals <= PRECISION_DECIMALS,
        settle_fits(cfg, st, now),
    ensures
        settled(cfg, st, now).acc_token_per_share >= st.acc_token_per_share,
{
    if now > st.last_reward_slot && st.last_reward_slot != 0 && st.total_staked != 0 {
        let reward = spec_multiplier(st.last_reward_slot, now, cfg.end_slot)
            * cfg.reward_per_slot;
        let pf = spec_precision_factor(cfg.reward_mint_decimals);
        lemma_mul_nonnegative(
            spec_multiplier(st.last_reward_slot, now, cfg.end_slot),
            cfg.reward_per_slot as int,
        );
        lemma_precision_factor_at_least_one(cfg.reward_mint_decimals);
        lemma_mul_nonnegative(reward, pf);
        lemma_div_pos_is_pos(reward * pf, st.total_staked as int);
    }
}

/// The pool state after settling at each time in `times`, in order.
pub open spec fn settled_seq(cfg: PoolConfig, st: PoolState, times: Seq<u64>) -> PoolState
    decreases times.len(),
{
    if times.len() == 0 {
        st
    } else {
        settled_seq(cfg, settled(cfg, st, times[0]), times.drop_first())
    }
}

/// Every step of a settlement sequence stays within `u64`.
pub open spec fn settle_seq_fits(cfg: PoolConfig, st: PoolState, times: Seq<u64>) -> bool
    decreases times.len(),
{
    times.len() == 0 || (settle_fits(cfg, st, times[0]) && settle_seq_fits(
        cfg,
        settled(cfg, st, times[0]),
        times.drop_first(),
    ))
}

/// Accumulator monotonicity: across any sequence of settlements, at
/// whatever times and in whatever order the callers arrive,
/// `acc_token_per_share` never decreases.
pub proof fn lemma_acc_monotonic_over_settlements(cfg: PoolConfig, st: PoolState, times: Seq<u64>)
    requires
        cfg.reward_mint_decimals <= PRECISION_DECIMALS,
        settle_seq_fits(cfg, st, times),
    ensures
        settled_seq(cfg, st, times).acc_token_per_share >= st.acc_token_per_share,
    decreases times.len(),
{
    if times.len() > 0 {
        lemma_settle_acc_monotonic(cfg, st, times[0]);
        lemma_acc_monotonic_over_settlements(cfg, settled(cfg, st, times[0]), times.drop_first());
    }
}

/// Window clamp: a settlement that starts inside the emission window and is
/// invoked at or past its end accrues reward for exactly
/// `end_slot - last_reward_slot` slots — never for the full
/// `now - last_reward_slot` span.
pub proof fn lemma_settlement_window_clamp(cfg: PoolConfig, st: PoolState, now: u64)
    requires
        st.last_reward_slot != 0,
        st.last_reward_slot < cfg.end_slot,
        now >= cfg.end_slot,
        st.total_staked != 0,
        settle_fits(cfg, st, now),
    ensures
        spec_multiplier(st.last_reward_slot, now, cfg.end_slot) == cfg.end_slot
            - st.last_reward_slot,
        settled(cfg, st, now).should_total_paid == st.should_total_paid + (cfg.end_slot
            - st.last_reward_slot) * cfg.reward_per_slot,
{
}

/// Idempotence: settling a second time at the same instant, with nothing
/// staked or unstaked in between, changes nothing at all.
pub proof fn lemma_settlement_idempotent(cfg: PoolConfig, st: PoolState, now: u64)
    ensures
        settled(cfg, settled(cfg, st, now), now) == settled(cfg, st, now),
{
}

/// No-stake no-op: settling a pool with no stake advances
/// `last_reward_slot` and leaves the accumulator and every reward tally
/// unchanged.
pub proof fn lemma_no_stake_settlement_noop(cfg: PoolConfig, st: PoolState, now: u64)
    requires
        st.total_staked == 0,
    ensures
        settled(cfg, st, now).acc_token_per_share == st.acc_token_per_share,
        settled(cfg, st, now).reward_amount == st.reward_amount,
        settled(cfg, st, now).should_total_paid == st.should_total_paid,
        settled(cfg, st, now).paid_rewards == st.paid_rewards,
        settled(cfg, st, now).total_earned == st.total_earned,
        settled(cfg, st, now).total_staked == 0,
        now > st.last_reward_slot && st.last_reward_slot != 0 ==> settled(
            cfg,
            st,
            now,
        ).last_reward_slot == now,
{
}

} // verus!
