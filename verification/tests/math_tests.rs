use defi_trust_fund::errors::ErrorCode;
use defi_trust_fund::math::{compute_fee, compute_penalty, compute_yield};

const SOL: u64 = 1_000_000_000;

#[test]
fn fee_split_exact() {
    // fee = floor(10 SOL * 50 / 10000) = 0.05 SOL, net = 9.95 SOL.
    let (fee, net) = compute_fee(10 * SOL, 50).unwrap();
    assert_eq!(fee, 50_000_000);
    assert_eq!(net, 9_950_000_000);
    assert_eq!(net + fee, 10 * SOL);
}

#[test]
fn fee_split_sums_back_for_many_rates() {
    for &fee_bps in &[0u64, 1, 10, 50, 500, 1000, 9999, 10000] {
        for &amount in &[0u64, 1, 19, 20, 1_000_000, u64::MAX] {
            let (fee, net) = compute_fee(amount, fee_bps).unwrap();
            assert_eq!(net + fee, amount);
            assert!(net <= amount);
            assert!(fee <= amount);
            assert_eq!(fee, ((amount as u128) * (fee_bps as u128) / 10_000) as u64);
        }
    }
}

#[test]
fn fee_truncates_toward_zero() {
    // floor(19 * 50 / 10000) = 0: the remainder stays with the pool.
    let (fee, net) = compute_fee(19, 50).unwrap();
    assert_eq!(fee, 0);
    assert_eq!(net, 19);
}

#[test]
fn fee_rate_above_hundred_percent_overflows() {
    assert_eq!(
        compute_fee(100, 20000),
        Err(ErrorCode::ArithmeticOverflow)
    );
}

#[test]
fn yield_exact_value() {
    // floor(9.95e9 * 1200 * 365 / (365 * 10000)) = floor(9.95e9 * 0.12).
    let y = compute_yield(9_950_000_000, 1200, 365).unwrap();
    assert_eq!(y, 1_194_000_000);
}

#[test]
fn yield_zero_days_is_zero() {
    assert_eq!(compute_yield(10 * SOL, 1200, 0).unwrap(), 0);
}

#[test]
fn yield_small_product_truncates_to_zero() {
    // 1 * 1200 * 1 / 3650000 = 0.
    assert_eq!(compute_yield(1, 1200, 1).unwrap(), 0);
}

#[test]
fn yield_monotone_in_days() {
    let mut last = 0;
    for days in [0u64, 1, 29, 30, 31, 365, 366, 730, 3650] {
        let y = compute_yield(10 * SOL, 1200, days).unwrap();
        assert!(y >= last);
        last = y;
    }
}

#[test]
fn yield_overflow_reported() {
    assert_eq!(
        compute_yield(u64::MAX, u64::MAX, u64::MAX),
        Err(ErrorCode::ArithmeticOverflow)
    );
    assert_eq!(
        compute_yield(u64::MAX, 5000, u64::MAX),
        Err(ErrorCode::ArithmeticOverflow)
    );
}

#[test]
fn penalty_is_five_percent() {
    assert_eq!(compute_penalty(10 * SOL), 500_000_000);
    assert_eq!(compute_penalty(0), 0);
    assert_eq!(compute_penalty(19), 0);
    assert_eq!(compute_penalty(20), 1);
    assert_eq!(compute_penalty(u64::MAX), u64::MAX / 20);
}
