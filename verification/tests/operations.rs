//! Stake, unstake, claim, and compound, through the public handlers.

use brew_staking::error::BrewStakingError;
use brew_staking::operations::{
    claim_reward, compound_credit, compound_reward, pending_reward, stake, unstake,
    CompoundOutcome,
};
use brew_staking::state::{PlatformInfo, PoolConfig, PoolState, UserInfo};

fn platform() -> PlatformInfo {
    PlatformInfo { deploy_fee: 10, performance_fee: 5, treasury: 9 }
}

fn pool_config(stake_fee: u16, unstake_fee: u16) -> PoolConfig {
    PoolConfig {
        owner: 7,
        pool_id: String::from("pool-1"),
        duration: 1,
        start_slot: 100,
        end_slot: 1100,
        reward_per_slot: 100,
        stake_fee,
        unstake_fee,
        stake_mint: 1,
        reward_mint: 2,
        stake_mint_decimals: 9,
        reward_mint_decimals: 9,
        pool_stake_token_vault: 100,
        pool_reward_token_vault: 101,
        state_addr: 102,
    }
}

fn pool_state(total_staked: u64, last_reward_slot: u64, reward_amount: u64) -> PoolState {
    PoolState {
        total_staked,
        last_reward_slot,
        acc_token_per_share: 0,
        reward_amount,
        should_total_paid: 0,
        paid_rewards: 0,
        total_earned: 0,
    }
}

fn fresh_user() -> UserInfo {
    UserInfo { staked_amount: 0, reward_debt: 0, deposit_slot: 0 }
}

#[test]
fn stake_credits_first_deposit() {
    let cfg = pool_config(0, 0);
    let mut st = pool_state(0, 100, 100_000);
    let mut user = fresh_user();
    let out = stake(&platform(), &cfg, &mut st, &mut user, 1000, 1000, 101).unwrap();
    assert_eq!(out.reward_paid, 0);
    assert_eq!(out.stake_fee, 0);
    assert_eq!(out.real_amount, 1000);
    assert_eq!(user.staked_amount, 1000);
    assert_eq!(user.reward_debt, 0);
    assert_eq!(st.total_staked, 1000);
    assert_eq!(st.last_reward_slot, 101);
}

#[test]
fn stake_takes_proportional_fee() {
    // 250 basis points = 2.5%.
    let cfg = pool_config(250, 0);
    let mut st = pool_state(0, 100, 100_000);
    let mut user = fresh_user();
    let out = stake(&platform(), &cfg, &mut st, &mut user, 1000, 1000, 101).unwrap();
    assert_eq!(out.stake_fee, 25);
    assert_eq!(out.real_amount, 975);
    assert_eq!(user.staked_amount, 975);
    assert_eq!(st.total_staked, 975);
}

#[test]
fn stake_settles_pending_reward_first() {
    let cfg = pool_config(0, 0);
    let mut st = pool_state(1000, 101, 100_000);
    let mut user = UserInfo { staked_amount: 1000, reward_debt: 0, deposit_slot: 0 };
    let out = stake(&platform(), &cfg, &mut st, &mut user, 1000, 1000, 601).unwrap();
    assert_eq!(out.reward_paid, 50_000);
    assert_eq!(st.acc_token_per_share, 50);
    assert_eq!(st.reward_amount, 50_000);
    assert_eq!(st.paid_rewards, 50_000);
    assert_eq!(st.total_staked, 2000);
    assert_eq!(user.staked_amount, 2000);
    // Debt consistency: staked_amount * acc_token_per_share / precision.
    assert_eq!(user.reward_debt, 2000 * 50);
}

#[test]
fn stake_rejected_before_start() {
    let mut cfg = pool_config(0, 0);
    cfg.start_slot = 0;
    let mut st = pool_state(0, 0, 100_000);
    let mut user = fresh_user();
    let err = stake(&platform(), &cfg, &mut st, &mut user, 1000, 1000, 101).unwrap_err();
    assert_eq!(err, BrewStakingError::PoolNotStarted);
    assert_eq!(st, pool_state(0, 0, 100_000));
}

#[test]
fn stake_rejected_at_start_slot() {
    let cfg = pool_config(0, 0);
    let mut st = pool_state(0, 100, 100_000);
    let mut user = fresh_user();
    let err = stake(&platform(), &cfg, &mut st, &mut user, 1000, 1000, 100).unwrap_err();
    assert_eq!(err, BrewStakingError::PoolNotStarted);
}

#[test]
fn stake_rejected_when_balance_does_not_exceed_fee() {
    let cfg = pool_config(0, 0);
    let mut st = pool_state(0, 100, 100_000);
    let mut user = fresh_user();
    let err = stake(&platform(), &cfg, &mut st, &mut user, 5, 1000, 101).unwrap_err();
    assert_eq!(err, BrewStakingError::InsufficientDeployFee);
}

#[test]
fn stake_rejected_when_reward_supply_exhausted() {
    let mut cfg = pool_config(0, 0);
    cfg.reward_mint = cfg.stake_mint;
    // Shared asset: everything in the vault is staked principal.
    let mut st = pool_state(1000, 101, 1000);
    let mut user = UserInfo { staked_amount: 1000, reward_debt: 0, deposit_slot: 0 };
    let err = stake(&platform(), &cfg, &mut st, &mut user, 1000, 1000, 601).unwrap_err();
    assert_eq!(err, BrewStakingError::InsufficientReward);
    assert_eq!(st, pool_state(1000, 101, 1000));
    assert_eq!(user, UserInfo { staked_amount: 1000, reward_debt: 0, deposit_slot: 0 });
}

#[test]
fn unstake_releases_partial_position() {
    // 100 basis points = 1%.
    let cfg = pool_config(0, 100);
    let mut st = pool_state(1000, 101, 100_000);
    let mut user = UserInfo { staked_amount: 1000, reward_debt: 0, deposit_slot: 0 };
    let out = unstake(&platform(), &cfg, &mut st, &mut user, 1000, 400, 101).unwrap();
    assert_eq!(out.reward_paid, 0);
    assert_eq!(out.unstake_fee, 4);
    assert_eq!(out.returned, 396);
    assert_eq!(user.staked_amount, 600);
    assert_eq!(st.total_staked, 600);
}

#[test]
fn unstake_settles_pending_reward_first() {
    let cfg = pool_config(0, 0);
    let mut st = pool_state(1000, 101, 100_000);
    let mut user = UserInfo { staked_amount: 1000, reward_debt: 0, deposit_slot: 0 };
    let out = unstake(&platform(), &cfg, &mut st, &mut user, 1000, 400, 601).unwrap();
    assert_eq!(out.reward_paid, 50_000);
    assert_eq!(st.reward_amount, 50_000);
    assert_eq!(st.paid_rewards, 50_000);
    assert_eq!(user.staked_amount, 600);
    assert_eq!(user.reward_debt, 600 * 50);
    assert_eq!(st.total_staked, 600);
}

#[test]
fn unstake_of_zero_rejected() {
    let cfg = pool_config(0, 0);
    let mut st = pool_state(1000, 101, 100_000);
    let mut user = UserInfo { staked_amount: 1000, reward_debt: 0, deposit_slot: 0 };
    let err = unstake(&platform(), &cfg, &mut st, &mut user, 1000, 0, 101).unwrap_err();
    assert_eq!(err, BrewStakingError::UnstakeAmountTooSmall);
}

#[test]
fn unstake_of_whole_position_rejected() {
    // Deposit 1000, then try to unstake 1000 in one call: the strict
    // boundary rejects it.
    let cfg = pool_config(0, 0);
    let mut st = pool_state(0, 100, 100_000);
    let mut user = fresh_user();
    stake(&platform(), &cfg, &mut st, &mut user, 1000, 1000, 101).unwrap();
    assert_eq!(user.staked_amount, 1000);
    let err = unstake(&platform(), &cfg, &mut st, &mut user, 1000, 1000, 101).unwrap_err();
    assert_eq!(err, BrewStakingError::UnstakeAmountTooHigh);
    assert_eq!(user.staked_amount, 1000);
    assert_eq!(st.total_staked, 1000);
}

#[test]
fn unstake_rejected_when_balance_does_not_exceed_fee() {
    let cfg = pool_config(0, 0);
    let mut st = pool_state(1000, 101, 100_000);
    let mut user = UserInfo { staked_amount: 1000, reward_debt: 0, deposit_slot: 0 };
    let err = unstake(&platform(), &cfg, &mut st, &mut user, 5, 400, 101).unwrap_err();
    assert_eq!(err, BrewStakingError::InsufficientDeployFee);
}

#[test]
fn claim_with_no_stake_is_a_noop_success() {
    let cfg = pool_config(0, 0);
    let mut st = pool_state(0, 101, 100_000);
    let mut user = fresh_user();
    let out = claim_reward(&platform(), &cfg, &mut st, &mut user, 1000, 601).unwrap();
    assert_eq!(out.reward_paid, 0);
    assert_eq!(user, fresh_user());
    // The settlement itself still commits.
    assert_eq!(st.last_reward_slot, 601);
}

#[test]
fn claim_pays_and_reprices_debt() {
    let cfg = pool_config(0, 0);
    let mut st = pool_state(1000, 101, 100_000);
    let mut user = UserInfo { staked_amount: 1000, reward_debt: 0, deposit_slot: 0 };
    let out = claim_reward(&platform(), &cfg, &mut st, &mut user, 1000, 601).unwrap();
    assert_eq!(out.reward_paid, 50_000);
    assert_eq!(st.reward_amount, 50_000);
    assert_eq!(st.paid_rewards, 50_000);
    assert_eq!(user.staked_amount, 1000);
    assert_eq!(user.reward_debt, 1000 * 50);
    // Claiming again immediately finds nothing pending.
    let out = claim_reward(&platform(), &cfg, &mut st, &mut user, 1000, 601).unwrap();
    assert_eq!(out.reward_paid, 0);
}

#[test]
fn claim_rejected_when_balance_does_not_exceed_fee() {
    let cfg = pool_config(0, 0);
    let mut st = pool_state(1000, 101, 100_000);
    let mut user = UserInfo { staked_amount: 1000, reward_debt: 0, deposit_slot: 0 };
    let err = claim_reward(&platform(), &cfg, &mut st, &mut user, 5, 601).unwrap_err();
    assert_eq!(err, BrewStakingError::InsufficientDeployFee);
}

#[test]
fn sequential_stakers_split_rewards_evenly() {
    let cfg = pool_config(0, 0);
    let mut st = pool_state(0, 100, 1_000_000);
    let mut alice = fresh_user();
    let mut bob = fresh_user();
    stake(&platform(), &cfg, &mut st, &mut alice, 1000, 500, 101).unwrap();
    stake(&platform(), &cfg, &mut st, &mut bob, 1000, 500, 101).unwrap();
    assert_eq!(st.total_staked, 1000);
    let pending_alice = pending_reward(&cfg, &st, &alice, 601);
    let pending_bob = pending_reward(&cfg, &st, &bob, 601);
    assert_eq!(pending_alice, 25_000);
    assert_eq!(pending_bob, 25_000);
    assert_eq!(pending_alice + pending_bob, 100 * 500);
}

#[test]
fn compound_with_shared_asset_credits_directly() {
    let mut cfg = pool_config(0, 0);
    cfg.reward_mint = cfg.stake_mint;
    let mut st = pool_state(1000, 101, 60_000);
    let mut user = UserInfo { staked_amount: 1000, reward_debt: 0, deposit_slot: 0 };
    let out = compound_reward(&platform(), &cfg, &mut st, &mut user, 1000, 601).unwrap();
    assert_eq!(out, CompoundOutcome::Credited { amount: 50_000 });
    assert_eq!(user.staked_amount, 51_000);
    assert_eq!(st.total_staked, 51_000);
    assert_eq!(st.paid_rewards, 50_000);
    // The reward stays in the shared vault, so the funded balance is kept.
    assert_eq!(st.reward_amount, 60_000);
    assert_eq!(user.reward_debt, 51_000 * 50);
}

#[test]
fn compound_with_nothing_pending_reprices_debt_only() {
    let cfg = pool_config(0, 0);
    let mut st = pool_state(1000, 101, 100_000);
    let mut user = UserInfo { staked_amount: 1000, reward_debt: 0, deposit_slot: 0 };
    let out = compound_reward(&platform(), &cfg, &mut st, &mut user, 1000, 101).unwrap();
    assert_eq!(out, CompoundOutcome::Credited { amount: 0 });
    assert_eq!(user.staked_amount, 1000);
    assert_eq!(user.reward_debt, 0);
}

#[test]
fn compound_with_no_stake_changes_nothing() {
    let cfg = pool_config(0, 0);
    let mut st = pool_state(0, 101, 100_000);
    let mut user = fresh_user();
    let out = compound_reward(&platform(), &cfg, &mut st, &mut user, 1000, 601).unwrap();
    assert_eq!(out, CompoundOutcome::NoStake);
    assert_eq!(user, fresh_user());
}

#[test]
fn compound_with_distinct_assets_swaps_then_credits() {
    let cfg = pool_config(0, 0);
    let mut st = pool_state(1000, 101, 100_000);
    let mut user = UserInfo { staked_amount: 1000, reward_debt: 0, deposit_slot: 0 };
    let out = compound_reward(&platform(), &cfg, &mut st, &mut user, 1000, 601).unwrap();
    assert_eq!(out, CompoundOutcome::SwapRequired { pending: 50_000 });
    assert_eq!(st.paid_rewards, 50_000);
    assert_eq!(user.staked_amount, 1000);
    // The host swaps and measures what actually arrived: slippage means
    // less than the nominal pending amount gets credited.
    let deposited = compound_credit(&cfg, &mut st, &mut user, 49_000);
    assert_eq!(deposited, 49_000);
    assert_eq!(user.staked_amount, 50_000);
    assert_eq!(st.total_staked, 50_000);
    assert_eq!(user.reward_debt, 50_000 * 50);
}

#[test]
fn compound_rejected_when_balance_does_not_exceed_fee() {
    let cfg = pool_config(0, 0);
    let mut st = pool_state(1000, 101, 100_000);
    let mut user = UserInfo { staked_amount: 1000, reward_debt: 0, deposit_slot: 0 };
    let err = compound_reward(&platform(), &cfg, &mut st, &mut user, 5, 601).unwrap_err();
    assert_eq!(err, BrewStakingError::InsufficientDeployFee);
}

#[test]
fn compound_rejected_when_reward_supply_exhausted() {
    let mut cfg = pool_config(0, 0);
    cfg.reward_mint = cfg.stake_mint;
    let mut st = pool_state(1000, 101, 1000);
    let mut user = UserInfo { staked_amount: 1000, reward_debt: 0, deposit_slot: 0 };
    let err = compound_reward(&platform(), &cfg, &mut st, &mut user, 1000, 601).unwrap_err();
    assert_eq!(err, BrewStakingError::InsufficientReward);
    assert_eq!(st, pool_state(1000, 101, 1000));
}

#[test]
fn stake_fee_rounds_down() {
    let cfg = pool_config(250, 0);
    let mut st = pool_state(0, 100, 100_000);
    let mut user = fresh_user();
    let out = stake(&platform(), &cfg, &mut st, &mut user, 1000, 999, 101).unwrap();
    // 999 * 250 / 10000 = 24.975, truncated.
    assert_eq!(out.stake_fee, 24);
    assert_eq!(out.real_amount, 975);
}

#[test]
fn unstake_fee_rounds_down() {
    let cfg = pool_config(0, 100);
    let mut st = pool_state(1000, 101, 100_000);
    let mut user = UserInfo { staked_amount: 1000, reward_debt: 0, deposit_slot: 0 };
    let out = unstake(&platform(), &cfg, &mut st, &mut user, 1000, 333, 101).unwrap();
    // 333 * 100 / 10000 = 3.33, truncated.
    assert_eq!(out.unstake_fee, 3);
    assert_eq!(out.returned, 330);
}
