//! Platform setup, pool creation, and the emission window.

use brew_staking::error::BrewStakingError;
use brew_staking::lifecycle::{create_pool, initialize, start_reward, stop_reward};
use brew_staking::state::{PlatformInfo, PoolConfig, PoolState};
use brew_staking::utils::update_pool;

fn platform() -> PlatformInfo {
    PlatformInfo { deploy_fee: 10, performance_fee: 5, treasury: 9 }
}

fn pool_config(start_slot: u64, end_slot: u64, reward_per_slot: u64) -> PoolConfig {
    PoolConfig {
        owner: 7,
        pool_id: String::from("pool-1"),
        duration: 2,
        start_slot,
        end_slot,
        reward_per_slot,
        stake_fee: 0,
        unstake_fee: 0,
        stake_mint: 1,
        reward_mint: 2,
        stake_mint_decimals: 9,
        reward_mint_decimals: 9,
        pool_stake_token_vault: 100,
        pool_reward_token_vault: 101,
        state_addr: 102,
    }
}

fn pool_state(total_staked: u64, last_reward_slot: u64, reward_amount: u64) -> PoolState {
    PoolState {
        total_staked,
        last_reward_slot,
        acc_token_per_share: 0,
        reward_amount,
        should_total_paid: 0,
        paid_rewards: 0,
        total_earned: 0,
    }
}

#[test]
fn initialize_records_fees_and_treasury() {
    let mut info = PlatformInfo { deploy_fee: 0, performance_fee: 0, treasury: 0 };
    initialize(&mut info, 9, 10, 5);
    assert_eq!(info, platform());
    // Re-initialization overwrites rather than failing.
    initialize(&mut info, 3, 20, 7);
    assert_eq!(info, PlatformInfo { deploy_fee: 20, performance_fee: 7, treasury: 3 });
}

#[test]
fn create_pool_builds_fresh_records() {
    let (cfg, st) = create_pool(
        &platform(),
        7,
        1000,
        String::from("pool-1"),
        250,
        100,
        50_000,
        100,
        2,
        1,
        2,
        9,
        6,
        100,
        101,
        102,
    )
    .unwrap();
    assert_eq!(cfg.owner, 7);
    assert_eq!(cfg.pool_id, "pool-1");
    assert_eq!(cfg.duration, 2);
    assert_eq!(cfg.start_slot, 0);
    assert_eq!(cfg.end_slot, 0);
    assert_eq!(cfg.reward_per_slot, 100);
    assert_eq!(cfg.stake_fee, 250);
    assert_eq!(cfg.unstake_fee, 100);
    assert_eq!(cfg.stake_mint, 1);
    assert_eq!(cfg.reward_mint, 2);
    assert_eq!(cfg.stake_mint_decimals, 9);
    assert_eq!(cfg.reward_mint_decimals, 6);
    assert_eq!(st.reward_amount, 50_000);
    assert_eq!(st.total_staked, 0);
    assert_eq!(st.acc_token_per_share, 0);
    assert_eq!(st.last_reward_slot, 0);
}

#[test]
fn create_pool_rejects_excessive_stake_fee() {
    let err = create_pool(
        &platform(),
        7,
        1000,
        String::from("pool-1"),
        10_001,
        0,
        0,
        100,
        2,
        1,
        2,
        9,
        9,
        100,
        101,
        102,
    )
    .unwrap_err();
    assert_eq!(err, BrewStakingError::InvalidStakeFee);
}

#[test]
fn create_pool_rejects_excessive_unstake_fee() {
    let err = create_pool(
        &platform(),
        7,
        1000,
        String::from("pool-1"),
        0,
        10_001,
        0,
        100,
        2,
        1,
        2,
        9,
        9,
        100,
        101,
        102,
    )
    .unwrap_err();
    assert_eq!(err, BrewStakingError::InvalidUnstakeFee);
}

#[test]
fn create_pool_rejects_balance_not_exceeding_deploy_fee() {
    let err = create_pool(
        &platform(),
        7,
        10,
        String::from("pool-1"),
        0,
        0,
        0,
        100,
        2,
        1,
        2,
        9,
        9,
        100,
        101,
        102,
    )
    .unwrap_err();
    assert_eq!(err, BrewStakingError::InsufficientDeployFee);
}

#[test]
fn start_reward_chooses_the_window_once() {
    let mut cfg = pool_config(0, 0, 100);
    let mut st = pool_state(0, 0, 100_000);
    let window = start_reward(&mut cfg, &mut st, 990).unwrap();
    assert_eq!(window.start_slot, 1000);
    // duration 2 days at 216000 slots per day.
    assert_eq!(window.end_slot, 1000 + 2 * 216_000);
    assert_eq!(cfg.start_slot, 1000);
    assert_eq!(cfg.end_slot, 1000 + 2 * 216_000);
    assert_eq!(st.last_reward_slot, 1000);
}

#[test]
fn start_reward_rejects_a_second_start() {
    let mut cfg = pool_config(1000, 433_000, 100);
    let mut st = pool_state(0, 1000, 100_000);
    let err = start_reward(&mut cfg, &mut st, 2000).unwrap_err();
    assert_eq!(err, BrewStakingError::PoolAlreadyStarted);
    assert_eq!(cfg.start_slot, 1000);
    assert_eq!(st.last_reward_slot, 1000);
}

#[test]
fn stop_reward_returns_exact_surplus() {
    let mut cfg = pool_config(100, 1100, 100);
    let mut st = pool_state(0, 101, 50_000);
    st.paid_rewards = 10_000;
    st.should_total_paid = 30_000;
    st.total_earned = 40_000;
    let surplus = stop_reward(&mut cfg, &mut st, 601);
    // available 50000 + paid 10000 against owed 30000.
    assert_eq!(surplus, 30_000);
    assert_eq!(st.total_earned, 10_000);
    assert_eq!(cfg.end_slot, 601);
}

#[test]
fn stop_reward_never_drives_total_earned_negative() {
    let mut cfg = pool_config(100, 1100, 100);
    let mut st = pool_state(0, 101, 50_000);
    st.paid_rewards = 10_000;
    st.should_total_paid = 30_000;
    st.total_earned = 20_000;
    let surplus = stop_reward(&mut cfg, &mut st, 601);
    assert_eq!(surplus, 30_000);
    assert_eq!(st.total_earned, 0);
}

#[test]
fn stop_reward_without_surplus_keeps_books() {
    let mut cfg = pool_config(100, 1100, 100);
    let mut st = pool_state(0, 101, 10_000);
    st.paid_rewards = 5_000;
    st.should_total_paid = 30_000;
    st.total_earned = 1_000;
    let surplus = stop_reward(&mut cfg, &mut st, 601);
    assert_eq!(surplus, 0);
    assert_eq!(st.total_earned, 1_000);
    assert_eq!(cfg.end_slot, 601);
}

#[test]
fn stop_reward_truncates_future_accrual() {
    let mut cfg = pool_config(100, 433_000, 100);
    let mut st = pool_state(1000, 101, 1_000_000);
    let surplus = stop_reward(&mut cfg, &mut st, 601);
    // The settlement ran first: 500 slots at 100 per slot over 1000 staked.
    assert_eq!(st.acc_token_per_share, 50);
    assert_eq!(st.should_total_paid, 50_000);
    assert_eq!(cfg.end_slot, 601);
    assert_eq!(surplus, 1_000_000 - 50_000);
    // After the stop, later settlements accrue nothing more.
    update_pool(&cfg, &mut st, 5_000);
    assert_eq!(st.acc_token_per_share, 50);
    assert_eq!(st.should_total_paid, 50_000);
    assert_eq!(st.last_reward_slot, 5_000);
}
