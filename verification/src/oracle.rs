//! Oracle price gating. The price feed itself is an external collaborator:
//! the host loads the feed account and hands the core the reported price and
//! its publish time. The core decides whether that reading may be trusted —
//! the feed must be the one the pool was configured with, the reading must
//! be fresh, and the price must not be negative.

use vstd::prelude::*;

use crate::errors::ErrorCode;
use crate::state::AccountId;
use crate::state::Pool;

verus! {

/// Why a price reading is rejected, if it is: a stale publish time fails
/// with `StalePriceData`, a negative price with `InvalidOracle`.
pub open spec fn price_validation_error(pool: Pool, price: i64, publish_time: i64, now: i64) -> Option<
    ErrorCode,
> {
    if now - publish_time > pool.price_staleness_threshold {
        Some(ErrorCode::StalePriceData)
    } else if price < 0 {
        Some(ErrorCode::InvalidOracle)
    } else {
        None
    }
}

/// Validates one oracle reading against the pool's staleness threshold and
/// returns the price as an unsigned value.
pub fn validate_sol_price(pool: &Pool, price: i64, publish_time: i64, now: i64) -> (r: Result<
    u64,
    ErrorCode,
>)
    ensures
        r == (match price_validation_error(*pool, price, publish_time, now) {
            Some(e) => Err::<u64, ErrorCode>(e),
            None => Ok::<u64, ErrorCode>(price as u64),
        }),
{
    let age: i128 = (now as i128) - (publish_time as i128);
    if age > pool.price_staleness_threshold as i128 {
        Err(ErrorCode::StalePriceData)
    } else if price < 0 {
        Err(ErrorCode::InvalidOracle)
    } else {
        Ok(price as u64)
    }
}

/// Why `update_sol_price` refuses, if it does: the caller must be the
/// admin, the reading must come from the configured feed, and the reading
/// itself must pass validation.
pub open spec fn update_price_error(
    pool: Pool,
    caller: AccountId,
    feed: AccountId,
    price: i64,
    publish_time: i64,
    now: i64,
) -> Option<ErrorCode> {
    if caller != pool.admin {
        Some(ErrorCode::Unauthorized)
    } else if feed != pool.sol_price_feed {
        Some(ErrorCode::InvalidOracle)
    } else {
        price_validation_error(pool, price, publish_time, now)
    }
}

/// Records that a fresh price was seen. The reading must come from the
/// configured feed, be fresh and be non-negative; then the pool's
/// `last_price_update` is stamped and the validated price returned. On any
/// error the pool is untouched.
pub fn update_sol_price(
    pool: &mut Pool,
    caller: AccountId,
    feed: AccountId,
    price: i64,
    publish_time: i64,
    now: i64,
) -> (r: Result<u64, ErrorCode>)
    requires
        old(pool).wf(),
        0 <= now,
    ensures
        final(pool).wf(),
        ({
            let err = update_price_error(*old(pool), caller, feed, price, publish_time, now);
            match r {
                Ok(p) => err is None && p == price as u64 && *final(pool) == (Pool {
                    last_price_update: now,
                    updated_at: now,
                    ..*old(pool)
                }),
                Err(e) => err == Some(e) && *final(pool) == *old(pool),
            }
        }),
{
    if caller != pool.admin {
        return Err(ErrorCode::Unauthorized);
    }
    if feed != pool.sol_price_feed {
        return Err(ErrorCode::InvalidOracle);
    }
    let price_value = validate_sol_price(pool, price, publish_time, now)?;
    pool.last_price_update = now;
    pool.updated_at = now;
    Ok(price_value)
}

} // verus!
