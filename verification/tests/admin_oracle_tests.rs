use defi_trust_fund::admin::{
    emergency_pause, emergency_unpause, initialize_pool, update_apy, update_deposit_fee,
    update_pool_limits, withdraw_fees,
};
use defi_trust_fund::errors::ErrorCode;
use defi_trust_fund::events::UpdatedParameter;
use defi_trust_fund::oracle::{update_sol_price, validate_sol_price};
use defi_trust_fund::state::Pool;

const SOL: u64 = 1_000_000_000;
const ADMIN: u64 = 1;
const MALLORY: u64 = 66;
const FEED: u64 = 900;
const T0: i64 = 1_700_000_000;

fn fresh_pool() -> Pool {
    initialize_pool(ADMIN, 5000, 1, 365, FEED, T0).unwrap().0
}

#[test]
fn initialize_sets_documented_defaults() {
    let (pool, ev) = initialize_pool(ADMIN, 5000, 1, 365, FEED, T0).unwrap();
    assert_eq!(pool.admin, ADMIN);
    assert_eq!(pool.apy, 1200);
    assert_eq!(pool.deposit_fee, 50);
    assert_eq!(pool.min_stake_amount, SOL / 10);
    assert_eq!(pool.max_stake_amount, 100 * SOL);
    assert_eq!(pool.max_deposit_per_user, 1000 * SOL);
    assert_eq!(pool.max_total_staked, 100_000 * SOL);
    assert_eq!(pool.multisig_signers, vec![ADMIN]);
    assert_eq!(pool.multisig_threshold, 1);
    assert_eq!(pool.action_timelock_delay, 86_400);
    assert_eq!(pool.price_staleness_threshold, 60);
    assert!(pool.is_active);
    assert!(!pool.is_paused);
    assert!(!pool.reentrancy_guard);
    assert_eq!(ev.admin, ADMIN);
    assert_eq!(ev.timestamp, T0);
}

#[test]
fn initialize_validates_bounds() {
    assert_eq!(
        initialize_pool(ADMIN, 5001, 1, 365, FEED, T0).unwrap_err(),
        ErrorCode::InvalidApy
    );
    assert_eq!(
        initialize_pool(ADMIN, 5000, 0, 365, FEED, T0).unwrap_err(),
        ErrorCode::InvalidCommitment
    );
    assert_eq!(
        initialize_pool(ADMIN, 5000, 1, 366, FEED, T0).unwrap_err(),
        ErrorCode::InvalidCommitment
    );
    assert_eq!(
        initialize_pool(ADMIN, 5000, 100, 30, FEED, T0).unwrap_err(),
        ErrorCode::InvalidCommitment
    );
}

#[test]
fn initialize_caps_default_apy_by_maximum() {
    // A ceiling below the 12% default pulls the starting APY down to it.
    let (pool, _) = initialize_pool(ADMIN, 1000, 1, 365, FEED, T0).unwrap();
    assert_eq!(pool.apy, 1000);
    assert_eq!(pool.max_apy, 1000);
}

#[test]
fn pause_and_unpause() {
    let mut pool = fresh_pool();
    assert_eq!(
        emergency_pause(&mut pool, MALLORY, "x".to_string(), T0 + 1),
        Err(ErrorCode::Unauthorized)
    );
    let ev = emergency_pause(&mut pool, ADMIN, "vault drained".to_string(), T0 + 1).unwrap();
    assert!(pool.is_paused);
    assert_eq!(pool.emergency_pause_reason, Some("vault drained".to_string()));
    assert_eq!(ev.admin, ADMIN);

    assert_eq!(
        emergency_unpause(&mut pool, MALLORY, T0 + 2),
        Err(ErrorCode::Unauthorized)
    );
    emergency_unpause(&mut pool, ADMIN, T0 + 2).unwrap();
    assert!(!pool.is_paused);
    assert_eq!(pool.emergency_pause_reason, None);
}

#[test]
fn apy_update_bounds() {
    let mut pool = fresh_pool();
    assert_eq!(
        update_apy(&mut pool, MALLORY, 2000, T0),
        Err(ErrorCode::Unauthorized)
    );
    assert_eq!(
        update_apy(&mut pool, ADMIN, 5001, T0),
        Err(ErrorCode::InvalidApy)
    );
    assert_eq!(
        update_apy(&mut pool, ADMIN, 99, T0),
        Err(ErrorCode::InvalidApy)
    );
    let ev = update_apy(&mut pool, ADMIN, 2000, T0 + 5).unwrap();
    assert_eq!(pool.apy, 2000);
    assert_eq!(ev.parameter, UpdatedParameter::Apy);
    assert_eq!(ev.old_value, 1200);
    assert_eq!(ev.new_value, 2000);
    assert_eq!(pool.updated_at, T0 + 5);
}

#[test]
fn fee_update_bounds() {
    let mut pool = fresh_pool();
    assert_eq!(
        update_deposit_fee(&mut pool, ADMIN, 1001, T0),
        Err(ErrorCode::InvalidFee)
    );
    assert_eq!(
        update_deposit_fee(&mut pool, ADMIN, 9, T0),
        Err(ErrorCode::InvalidFee)
    );
    let ev = update_deposit_fee(&mut pool, ADMIN, 100, T0).unwrap();
    assert_eq!(pool.deposit_fee, 100);
    assert_eq!(ev.parameter, UpdatedParameter::DepositFee);
}

#[test]
fn limit_update_validation() {
    let mut pool = fresh_pool();
    pool.total_staked = 50 * SOL;
    // The pool-wide cap must stay above what is already staked.
    assert_eq!(
        update_pool_limits(&mut pool, ADMIN, 1000 * SOL, 50 * SOL, 1, 100 * SOL, T0),
        Err(ErrorCode::InvalidLimit)
    );
    assert_eq!(
        update_pool_limits(&mut pool, ADMIN, 0, 1000 * SOL, 1, 100 * SOL, T0),
        Err(ErrorCode::InvalidLimit)
    );
    assert_eq!(
        update_pool_limits(&mut pool, ADMIN, 1000 * SOL, 1000 * SOL, 0, 100 * SOL, T0),
        Err(ErrorCode::InvalidLimit)
    );
    // max stake below min stake.
    assert_eq!(
        update_pool_limits(&mut pool, ADMIN, 1000 * SOL, 1000 * SOL, 2 * SOL, SOL, T0),
        Err(ErrorCode::InvalidLimit)
    );
    // per-user cap below the largest single stake.
    assert_eq!(
        update_pool_limits(&mut pool, ADMIN, SOL, 1000 * SOL, 1, 100 * SOL, T0),
        Err(ErrorCode::InvalidLimit)
    );
    update_pool_limits(&mut pool, ADMIN, 500 * SOL, 1000 * SOL, 1, 50 * SOL, T0).unwrap();
    assert_eq!(pool.max_deposit_per_user, 500 * SOL);
    assert_eq!(pool.max_total_staked, 1000 * SOL);
    assert_eq!(pool.min_stake_amount, 1);
    assert_eq!(pool.max_stake_amount, 50 * SOL);
}

#[test]
fn withdraw_fees_accounting() {
    let mut pool = fresh_pool();
    pool.total_fees_collected = 3 * SOL;
    assert_eq!(
        withdraw_fees(&mut pool, MALLORY, SOL, 10 * SOL, T0),
        Err(ErrorCode::Unauthorized)
    );
    // More than was ever collected.
    assert_eq!(
        withdraw_fees(&mut pool, ADMIN, 4 * SOL, 10 * SOL, T0),
        Err(ErrorCode::InsufficientFunds)
    );
    // More than the vault holds right now.
    assert_eq!(
        withdraw_fees(&mut pool, ADMIN, 2 * SOL, SOL, T0),
        Err(ErrorCode::InsufficientFunds)
    );
    withdraw_fees(&mut pool, ADMIN, 2 * SOL, 10 * SOL, T0).unwrap();
    assert_eq!(pool.total_fees_collected, SOL);
}

#[test]
fn oracle_price_validation() {
    let pool = fresh_pool();
    // Fresh, non-negative price passes through.
    assert_eq!(validate_sol_price(&pool, 2_500, T0 - 30, T0), Ok(2_500));
    // Published 61 seconds ago with a 60-second threshold: stale.
    assert_eq!(
        validate_sol_price(&pool, 2_500, T0 - 61, T0),
        Err(ErrorCode::StalePriceData)
    );
    // A negative price is invalid whatever its age.
    assert_eq!(
        validate_sol_price(&pool, -5, T0, T0),
        Err(ErrorCode::InvalidOracle)
    );
}

#[test]
fn price_update_stamps_pool() {
    let mut pool = fresh_pool();
    assert_eq!(
        update_sol_price(&mut pool, MALLORY, FEED, 2_500, T0 - 10, T0),
        Err(ErrorCode::Unauthorized)
    );
    // A reading from some other feed account is rejected.
    assert_eq!(
        update_sol_price(&mut pool, ADMIN, FEED + 1, 2_500, T0 - 10, T0),
        Err(ErrorCode::InvalidOracle)
    );
    assert_eq!(pool.last_price_update, 0);
    assert_eq!(
        update_sol_price(&mut pool, ADMIN, FEED, 2_500, T0 - 10, T0),
        Ok(2_500)
    );
    assert_eq!(pool.last_price_update, T0);
    assert_eq!(pool.updated_at, T0);
}
