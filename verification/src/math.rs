//! Fixed-point accounting: fee, yield and penalty formulas.
//!
//! All money-bearing arithmetic is unsigned fixed-point. Basis-point values
//! are integers where 10000 stands for 100%. Division truncates toward zero;
//! the truncation remainder is retained by the pool and never paid out.

use vstd::prelude::*;

use crate::errors::ErrorCode;
use vstd::arithmetic::div_mod::lemma_div_is_ordered;
use vstd::arithmetic::div_mod::lemma_div_multiples_vanish;
use vstd::arithmetic::mul::lemma_mul_inequality;

verus! {

/// 10000 basis points stand for 100%.
pub const BPS_DENOMINATOR: u64 = 10000;

/// Days of one accrual year.
pub const DAYS_PER_YEAR: u64 = 365;

/// Basis points withheld when a stake leaves before its commitment: 5%.
pub const EARLY_EXIT_PENALTY_BPS: u64 = 500;

/// Seconds in one day.
pub const SECONDS_PER_DAY: u64 = 86400;

/// The deposit fee on `amount` at `fee_bps`: floor(amount * fee_bps / 10000).
pub open spec fn spec_fee(amount: u64, fee_bps: u64) -> int {
    amount * fee_bps / (BPS_DENOMINATOR as int)
}

/// What remains of `amount` once the deposit fee is withheld.
pub open spec fn spec_net(amount: u64, fee_bps: u64) -> int {
    amount - spec_fee(amount, fee_bps)
}

/// Accrued yield: floor(amount * apy_bps * days / (365 * 10000)).
pub open spec fn spec_yield(amount: u64, apy_bps: u64, days: u64) -> int {
    amount * apy_bps * days / (DAYS_PER_YEAR * BPS_DENOMINATOR)
}

/// The early-exit penalty: floor(amount * 500 / 10000), i.e. 5%.
pub open spec fn spec_penalty(amount: u64) -> int {
    amount * EARLY_EXIT_PENALTY_BPS / (BPS_DENOMINATOR as int)
}

/// Whole days between `stake_ts` and `now`.
pub open spec fn spec_days_staked(stake_ts: i64, now: i64) -> int
    recommends
        0 <= stake_ts <= now,
{
    (now - stake_ts) / (SECONDS_PER_DAY as int)
}

/// Splits `amount` into the deposit fee and the net amount that is staked.
/// The fee is floor(amount * fee_bps / 10000); whenever that fee does not
/// exceed the amount the split succeeds, otherwise the subtraction would
/// underflow and the whole operation fails.
pub fn compute_fee(amount: u64, fee_bps: u64) -> (r: Result<(u64, u64), ErrorCode>)
    ensures
        spec_fee(amount, fee_bps) <= amount ==> r == Ok::<(u64, u64), ErrorCode>(
            ((spec_fee(amount, fee_bps) as u64), (spec_net(amount, fee_bps) as u64)),
        ),
        spec_fee(amount, fee_bps) > amount ==> r == Err::<(u64, u64), ErrorCode>(
            ErrorCode::ArithmeticOverflow,
        ),
{
    proof {
        lemma_wide_mul_fits(amount, fee_bps);
    }
    let wide: u128 = (amount as u128) * (fee_bps as u128) / (BPS_DENOMINATOR as u128);
    if wide > amount as u128 {
        Err(ErrorCode::ArithmeticOverflow)
    } else {
        let fee: u64 = wide as u64;
        Ok((fee, amount - fee))
    }
}

/// The yield owed after `days` at `apy_bps` on `amount`, per
/// floor(amount * apy_bps * days / (365 * 10000)). Fails with
/// `ArithmeticOverflow` exactly when that value does not fit in a `u64`.
pub fn compute_yield(amount: u64, apy_bps: u64, days: u64) -> (r: Result<u64, ErrorCode>)
    ensures
        spec_yield(amount, apy_bps, days) <= u64::MAX ==> r == Ok::<u64, ErrorCode>(
            spec_yield(amount, apy_bps, days) as u64,
        ),
        spec_yield(amount, apy_bps, days) > u64::MAX ==> r == Err::<u64, ErrorCode>(
            ErrorCode::ArithmeticOverflow,
        ),
{
    if days == 0 {
        return Ok(0);
    }
    proof {
        lemma_wide_mul_fits(amount, apy_bps);
    }
    let ap: u128 = (amount as u128) * (apy_bps as u128);
    match ap.checked_mul(days as u128) {
        Some(apd) => {
            let y: u128 = apd / ((DAYS_PER_YEAR * BPS_DENOMINATOR) as u128);
            if y > u64::MAX as u128 {
                Err(ErrorCode::ArithmeticOverflow)
            } else {
                Ok(y as u64)
            }
        },
        None => {
            proof {
                lemma_yield_overflow(amount as int, apy_bps as int, days as int);
            }
            Err(ErrorCode::ArithmeticOverflow)
        },
    }
}

/// The 5% early-exit penalty on `amount`. Never exceeds `amount`.
pub fn compute_penalty(amount: u64) -> (r: u64)
    ensures
        r == spec_penalty(amount),
        r <= amount,
{
    proof {
        lemma_wide_mul_fits(amount, 500);
        lemma_fee_bounds(amount, 500);
    }
    let wide: u128 = (amount as u128) * (EARLY_EXIT_PENALTY_BPS as u128) / (
    BPS_DENOMINATOR as u128);
    wide as u64
}

/// A product of two `u64` values fits in a `u128`.
pub proof fn lemma_wide_mul_fits(a: u64, b: u64)
    ensures
        a * b <= u64::MAX * u64::MAX,
{
    lemma_mul_inequality(a as int, u64::MAX as int, b as int);
    lemma_mul_inequality(b as int, u64::MAX as int, u64::MAX as int);
}

/// With `fee_bps` at most 10000 the fee never exceeds the amount.
pub proof fn lemma_fee_bounds(amount: u64, fee_bps: u64)
    requires
        fee_bps <= 10000,
    ensures
        0 <= spec_fee(amount, fee_bps) <= amount,
{
    lemma_mul_inequality(fee_bps as int, 10000, amount as int);
    lemma_div_is_ordered(amount * fee_bps, amount * 10000, 10000);
    lemma_div_multiples_vanish(amount as int, 10000);
}

/// Law: the fee split loses nothing. For every amount and every basis-point
/// fee at most 10000, the fee is floor(amount * fee_bps / 10000), the net
/// part and the fee sum back to the amount, and neither part exceeds it.
pub proof fn lemma_fee_accounting(amount: u64, fee_bps: u64)
    requires
        fee_bps <= 10000,
    ensures
        0 <= spec_fee(amount, fee_bps) <= amount,
        spec_net(amount, fee_bps) + spec_fee(amount, fee_bps) == amount,
        0 <= spec_net(amount, fee_bps) <= amount,
{
    lemma_fee_bounds(amount, fee_bps);
}

/// Law: with the amount and the APY fixed, the accrued yield never shrinks
/// as the days staked grow.
pub proof fn lemma_yield_monotonic(amount: u64, apy_bps: u64, d1: u64, d2: u64)
    requires
        d1 <= d2,
    ensures
        spec_yield(amount, apy_bps, d1) <= spec_yield(amount, apy_bps, d2),
{
    lemma_mul_inequality(d1 as int, d2 as int, amount * apy_bps);
    lemma_div_is_ordered(amount * apy_bps * d1, amount * apy_bps * d2, 3650000);
}

/// A fee at a rate strictly below 100% leaves a positive net amount.
pub proof fn lemma_net_positive(amount: u64, fee_bps: u64)
    requires
        fee_bps < 10000,
        amount >= 1,
    ensures
        spec_fee(amount, fee_bps) < amount,
        spec_net(amount, fee_bps) >= 1,
{
    lemma_mul_inequality(fee_bps as int, 9999, amount as int);
    lemma_div_is_ordered(amount * fee_bps, amount * 9999, 10000);
    assert(amount * 9999 / 10000 < amount) by (nonlinear_arith)
        requires
            amount >= 1,
    ;
}

/// A yield product beyond the `u128` range is far beyond `u64::MAX` even
/// after the fixed-point division.
proof fn lemma_yield_overflow(a: int, p: int, d: int)
    requires
        a * p * d > u128::MAX,
    ensures
        a * p * d / 3650000 > u64::MAX,
{
    lemma_div_is_ordered(u128::MAX + 1, a * p * d, 3650000);
    lemma_div_is_ordered((u64::MAX + 1) * 3650000, u128::MAX + 1, 3650000);
    lemma_div_multiples_vanish(u64::MAX + 1, 3650000);
}

} // verus!
