use defi_trust_fund::admin::initialize_pool;
use defi_trust_fund::errors::ErrorCode;
use defi_trust_fund::ledger::{claim_yields, stake, unstake};
use defi_trust_fund::state::{Pool, UserStake};

const SOL: u64 = 1_000_000_000;
const ADMIN: u64 = 1;
const ALICE: u64 = 11;
const T0: i64 = 1_700_000_000;
const VAULT: u64 = u64::MAX;

fn pool_with_stake(amount: u64, days: u64) -> (Pool, UserStake) {
    let mut pool = initialize_pool(ADMIN, 5000, 1, 365, 900, T0).unwrap().0;
    let mut user = UserStake::new(ALICE);
    stake(&mut pool, &mut user, ALICE, amount, days, 0, T0, T0, 1000).unwrap();
    (pool, user)
}

#[test]
fn roundtrip_early_unstake_pays_penalty() {
    // Stake 10 SOL (net 9.95), unstake the next day: 5% of the net amount
    // is withheld.
    let (mut pool, mut user) = pool_with_stake(10 * SOL, 30);
    let ev = unstake(&mut pool, &mut user, VAULT, T0 + 86_400).unwrap();
    assert_eq!(ev.amount, 9_950_000_000);
    assert_eq!(ev.penalty, 497_500_000);
    assert_eq!(ev.yields, 0);
    // What leaves the vault: amount - floor(amount * 500 / 10000).
    assert_eq!(ev.amount - ev.penalty, 9_452_500_000);
    // The record is fully reset; the pool forgets the stake.
    assert_eq!(user.amount, 0);
    assert_eq!(user.committed_days, 0);
    assert_eq!(user.stake_timestamp, 0);
    assert_eq!(pool.total_staked, 0);
    assert_eq!(pool.total_users, 0);
}

#[test]
fn roundtrip_after_commitment_pays_yield_no_penalty() {
    let (mut pool, mut user) = pool_with_stake(10 * SOL, 30);
    let ev = unstake(&mut pool, &mut user, VAULT, T0 + 365 * 86_400).unwrap();
    assert_eq!(ev.amount, 9_950_000_000);
    assert_eq!(ev.penalty, 0);
    assert_eq!(ev.yields, 1_194_000_000);
    assert_eq!(ev.amount + ev.yields, 11_144_000_000);
}

#[test]
fn unstake_without_stake_fails() {
    let mut pool = initialize_pool(ADMIN, 5000, 1, 365, 900, T0).unwrap().0;
    let mut user = UserStake::new(ALICE);
    assert_eq!(
        unstake(&mut pool, &mut user, VAULT, T0),
        Err(ErrorCode::NoStake)
    );
}

#[test]
fn unstake_paused_pool_fails() {
    let (mut pool, mut user) = pool_with_stake(10 * SOL, 30);
    pool.is_paused = true;
    assert_eq!(
        unstake(&mut pool, &mut user, VAULT, T0 + 86_400),
        Err(ErrorCode::PoolPaused)
    );
    assert_eq!(user.amount, 9_950_000_000);
}

#[test]
fn unstake_insufficient_vault_fails() {
    let (mut pool, mut user) = pool_with_stake(10 * SOL, 30);
    assert_eq!(
        unstake(&mut pool, &mut user, SOL, T0 + 86_400),
        Err(ErrorCode::InsufficientFunds)
    );
    // Nothing moved.
    assert_eq!(user.amount, 9_950_000_000);
    assert_eq!(pool.total_staked, 9_950_000_000);
}

#[test]
fn claim_before_commitment_fails() {
    let (mut pool, mut user) = pool_with_stake(10 * SOL, 30);
    assert_eq!(
        claim_yields(&mut pool, &mut user, VAULT, T0 + 86_400),
        Err(ErrorCode::CommitmentNotMet)
    );
}

#[test]
fn claim_without_stake_fails() {
    let mut pool = initialize_pool(ADMIN, 5000, 1, 365, 900, T0).unwrap().0;
    let mut user = UserStake::new(ALICE);
    assert_eq!(
        claim_yields(&mut pool, &mut user, VAULT, T0),
        Err(ErrorCode::NoStake)
    );
}

#[test]
fn claim_zero_yield_fails() {
    // A 1-lamport stake accrues nothing in a day: the truncation keeps it.
    let mut pool = initialize_pool(ADMIN, 5000, 1, 365, 900, T0).unwrap().0;
    pool.min_stake_amount = 1;
    let mut user = UserStake::new(ALICE);
    stake(&mut pool, &mut user, ALICE, 1, 1, 0, T0, T0, 1000).unwrap();
    assert_eq!(
        claim_yields(&mut pool, &mut user, VAULT, T0 + 86_400),
        Err(ErrorCode::NoYieldsToClaim)
    );
}

#[test]
fn claim_insufficient_vault_fails() {
    let (mut pool, mut user) = pool_with_stake(10 * SOL, 30);
    assert_eq!(
        claim_yields(&mut pool, &mut user, 100, T0 + 365 * 86_400),
        Err(ErrorCode::InsufficientFunds)
    );
}

#[test]
fn claim_rate_limited_within_cooldown() {
    let (mut pool, mut user) = pool_with_stake(10 * SOL, 30);
    let later = T0 + 365 * 86_400;
    claim_yields(&mut pool, &mut user, VAULT, later).unwrap();
    assert_eq!(
        claim_yields(&mut pool, &mut user, VAULT, later + 100),
        Err(ErrorCode::RateLimitExceeded)
    );
}

#[test]
fn reentrant_claim_always_fails() {
    let (mut pool, mut user) = pool_with_stake(10 * SOL, 30);
    pool.reentrancy_guard = true;
    let before_pool = pool.clone();
    let before_user = user.clone();
    assert_eq!(
        claim_yields(&mut pool, &mut user, VAULT, T0 + 365 * 86_400),
        Err(ErrorCode::ReentrancyDetected)
    );
    assert_eq!(pool, before_pool);
    assert_eq!(user, before_user);
}

#[test]
fn reentrant_unstake_always_fails() {
    let (mut pool, mut user) = pool_with_stake(10 * SOL, 30);
    pool.reentrancy_guard = true;
    let before_pool = pool.clone();
    let before_user = user.clone();
    assert_eq!(
        unstake(&mut pool, &mut user, VAULT, T0 + 86_400),
        Err(ErrorCode::ReentrancyDetected)
    );
    assert_eq!(pool, before_pool);
    assert_eq!(user, before_user);
}

#[test]
fn guard_released_after_successful_claim() {
    let (mut pool, mut user) = pool_with_stake(10 * SOL, 30);
    claim_yields(&mut pool, &mut user, VAULT, T0 + 365 * 86_400).unwrap();
    assert!(!pool.reentrancy_guard);
    unstake(&mut pool, &mut user, VAULT, T0 + 365 * 86_400).unwrap();
    assert!(!pool.reentrancy_guard);
}

#[test]
fn restake_after_full_unstake_counts_user_again() {
    let (mut pool, mut user) = pool_with_stake(10 * SOL, 30);
    unstake(&mut pool, &mut user, VAULT, T0 + 86_400).unwrap();
    assert_eq!(pool.total_users, 0);
    stake(&mut pool, &mut user, ALICE, SOL, 5, 0, T0 + 4000, T0 + 4000, 2000).unwrap();
    assert_eq!(pool.total_users, 1);
    assert_eq!(user.amount, 995_000_000);
    // Lifetime counters carried over the round trip.
    assert_eq!(user.total_staked_lifetime, 9_950_000_000 + 995_000_000);
}
