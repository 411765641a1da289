//! The protective guard layer: slippage tolerance, transaction deadlines,
//! MEV cooldowns for large operations, and per-user rate limits. Each guard
//! is a pure decision; the handler that consulted it commits any counter
//! updates only when the whole operation succeeds, so a failed operation
//! leaves no trace.

use vstd::prelude::*;

use crate::errors::ErrorCode;
use crate::state::COOLDOWN_PERIOD;
use crate::state::Pool;
use crate::state::RATE_LIMIT_WINDOW;
use crate::state::UserStake;

verus! {

/// The slippage rule: the actual amount must reach
/// expected * (10000 - max_slippage_bps) / 10000.
pub open spec fn slippage_ok(expected: u64, actual: u64, max_slippage_bps: u64) -> bool {
    actual >= expected * (10000 - max_slippage_bps) / 10000
}

/// The deadline rule: `now` must not pass the transaction's timestamp plus
/// the allowed number of seconds.
pub open spec fn deadline_ok(now: i64, tx_timestamp: i64, deadline_seconds: u64) -> bool {
    now <= tx_timestamp + deadline_seconds
}

/// The MEV rule for an operation of `amount`: below the large-operation
/// threshold it always passes; at or above it, enough slots must have gone
/// by since the last large operation.
pub open spec fn mev_ok(
    last_large_slot: u64,
    min_block_delay: u64,
    current_slot: u64,
    amount: u64,
    threshold: u64,
) -> bool {
    amount >= threshold ==> (if current_slot >= last_large_slot {
        current_slot - last_large_slot
    } else {
        0
    }) >= min_block_delay
}

/// Whether the rate-limit window has rolled over since the last attempt.
pub open spec fn rate_window_reset(last_attempt: i64, now: i64) -> bool {
    now - last_attempt > RATE_LIMIT_WINDOW
}

/// Attempts that still count against the window at `now`.
pub open spec fn effective_attempts(count: u64, last_attempt: i64, now: i64) -> int {
    if rate_window_reset(last_attempt, now) {
        0
    } else {
        count as int
    }
}

/// The rate-limit rule: the attempts still in the window stay below the
/// class's maximum, and the cooldown since the last attempt has elapsed.
pub open spec fn rate_limit_ok(count: u64, last_attempt: i64, now: i64, max_attempts: u64) -> bool {
    &&& effective_attempts(count, last_attempt, now) < max_attempts
    &&& now - last_attempt >= COOLDOWN_PERIOD
}

/// Checks the slippage rule and reports `SlippageExceeded` when it fails.
pub fn check_slippage_protection(
    expected_amount: u64,
    actual_amount: u64,
    max_slippage_bps: u64,
) -> (r: Result<(), ErrorCode>)
    requires
        max_slippage_bps <= 10000,
    ensures
        r == (if slippage_ok(expected_amount, actual_amount, max_slippage_bps) {
            Ok::<(), ErrorCode>(())
        } else {
            Err::<(), ErrorCode>(ErrorCode::SlippageExceeded)
        }),
{
    proof {
        crate::math::lemma_wide_mul_fits(expected_amount, (10000 - max_slippage_bps) as u64);
    }
    let min_expected: u128 = (expected_amount as u128) * ((10000 - max_slippage_bps) as u128)
        / 10000;
    if (actual_amount as u128) >= min_expected {
        Ok(())
    } else {
        Err(ErrorCode::SlippageExceeded)
    }
}

/// Checks the deadline rule and reports `TransactionExpired` when it fails.
pub fn check_transaction_deadline(
    current_timestamp: i64,
    transaction_timestamp: i64,
    deadline_seconds: u64,
) -> (r: Result<(), ErrorCode>)
    ensures
        r == (if deadline_ok(current_timestamp, transaction_timestamp, deadline_seconds) {
            Ok::<(), ErrorCode>(())
        } else {
            Err::<(), ErrorCode>(ErrorCode::TransactionExpired)
        }),
{
    let deadline: i128 = (transaction_timestamp as i128) + (deadline_seconds as i128);
    if (current_timestamp as i128) <= deadline {
        Ok(())
    } else {
        Err(ErrorCode::TransactionExpired)
    }
}

/// Checks the MEV rule against the pool's recorded last large operation and
/// reports `MevProtectionActive` when it fails. The caller records the new
/// slot when it commits.
pub fn check_mev_protection(
    pool: &Pool,
    current_slot: u64,
    operation_amount: u64,
    large_operation_threshold: u64,
) -> (r: Result<(), ErrorCode>)
    ensures
        r == (if mev_ok(
            pool.last_large_operation_slot,
            pool.min_block_delay,
            current_slot,
            operation_amount,
            large_operation_threshold,
        ) {
            Ok::<(), ErrorCode>(())
        } else {
            Err::<(), ErrorCode>(ErrorCode::MevProtectionActive)
        }),
{
    if operation_amount >= large_operation_threshold {
        let blocks_since_last = current_slot.saturating_sub(pool.last_large_operation_slot);
        if blocks_since_last >= pool.min_block_delay {
            Ok(())
        } else {
            Err(ErrorCode::MevProtectionActive)
        }
    } else {
        Ok(())
    }
}

/// Checks the claim rate limit and reports `RateLimitExceeded` when it
/// fails. Pure: the caller commits the counter update on success.
pub fn check_claim_rate_limit(user_stake: &UserStake, current_time: i64) -> (r: Result<
    (),
    ErrorCode,
>)
    requires
        0 <= user_stake.last_claim_attempt,
        0 <= current_time,
    ensures
        r == (if rate_limit_ok(
            user_stake.claim_attempts_count,
            user_stake.last_claim_attempt,
            current_time,
            crate::state::MAX_CLAIMS_PER_HOUR,
        ) {
            Ok::<(), ErrorCode>(())
        } else {
            Err::<(), ErrorCode>(ErrorCode::RateLimitExceeded)
        }),
{
    let count = effective_attempt_count(
        user_stake.claim_attempts_count,
        user_stake.last_claim_attempt,
        current_time,
    );
    if count < crate::state::MAX_CLAIMS_PER_HOUR && current_time - user_stake.last_claim_attempt
        >= COOLDOWN_PERIOD {
        Ok(())
    } else {
        Err(ErrorCode::RateLimitExceeded)
    }
}

/// Checks the stake rate limit and reports `RateLimitExceeded` when it
/// fails. Pure: the caller commits the counter update on success.
pub fn check_stake_rate_limit(user_stake: &UserStake, current_time: i64) -> (r: Result<
    (),
    ErrorCode,
>)
    requires
        0 <= user_stake.last_stake_attempt,
        0 <= current_time,
    ensures
        r == (if rate_limit_ok(
            user_stake.stake_attempts_count,
            user_stake.last_stake_attempt,
            current_time,
            crate::state::MAX_STAKES_PER_HOUR,
        ) {
            Ok::<(), ErrorCode>(())
        } else {
            Err::<(), ErrorCode>(ErrorCode::RateLimitExceeded)
        }),
{
    let count = effective_attempt_count(
        user_stake.stake_attempts_count,
        user_stake.last_stake_attempt,
        current_time,
    );
    if count < crate::state::MAX_STAKES_PER_HOUR && current_time - user_stake.last_stake_attempt
        >= COOLDOWN_PERIOD {
        Ok(())
    } else {
        Err(ErrorCode::RateLimitExceeded)
    }
}

/// The attempts that still count against the window, as executable code.
pub fn effective_attempt_count(count: u64, last_attempt: i64, now: i64) -> (r: u64)
    requires
        0 <= last_attempt,
        0 <= now,
    ensures
        r == effective_attempts(count, last_attempt, now),
{
    if now - last_attempt > RATE_LIMIT_WINDOW {
        0
    } else {
        count
    }
}

} // verus!
