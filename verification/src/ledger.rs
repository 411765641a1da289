//! The stake ledger: deposit, yield claim and unstake for one user record
//! against the pool. Each handler validates every guard and bound first and
//! commits only when the whole operation can succeed, so an error leaves
//! both records exactly as they were — the atomic abort the host guarantees
//! on-chain. The host moves the actual funds after a handler succeeds, using
//! the amounts in the returned event.

use vstd::prelude::*;

use crate::errors::ErrorCode;
use crate::events::ClaimEvent;
use crate::events::StakeEvent;
use crate::events::UnstakeEvent;
use crate::guards::check_mev_protection;
use crate::guards::check_claim_rate_limit;
use crate::guards::check_slippage_protection;
use crate::guards::check_stake_rate_limit;
use crate::guards::check_transaction_deadline;
use crate::guards::deadline_ok;
use crate::guards::effective_attempt_count;
use crate::guards::effective_attempts;
use crate::guards::mev_ok;
use crate::guards::rate_limit_ok;
use crate::guards::slippage_ok;
use crate::math::compute_fee;
use crate::math::compute_penalty;
use crate::math::compute_yield;
use crate::math::lemma_fee_bounds;
use crate::math::lemma_net_positive;
use crate::math::spec_days_staked;
use crate::math::SECONDS_PER_DAY;
use crate::math::spec_fee;
use crate::math::spec_net;
use crate::math::spec_penalty;
use crate::math::spec_yield;
use crate::state::AccountId;
use crate::state::LARGE_OPERATION_THRESHOLD;
use crate::state::MAX_CLAIMS_PER_HOUR;
use crate::state::MAX_STAKES_PER_HOUR;
use crate::state::Pool;
use crate::state::UserStake;

verus! {

/// The stake-class rate limit applied to `u` at `now`.
pub open spec fn stake_rate_ok(u: UserStake, now: i64) -> bool {
    rate_limit_ok(u.stake_attempts_count, u.last_stake_attempt, now, MAX_STAKES_PER_HOUR)
}

/// The claim-class rate limit applied to `u` at `now`.
pub open spec fn claim_rate_ok(u: UserStake, now: i64) -> bool {
    rate_limit_ok(u.claim_attempts_count, u.last_claim_attempt, now, MAX_CLAIMS_PER_HOUR)
}

/// Why a stake refuses, if it does, in the order the checks run: pause and
/// activity, the per-operation amount window, the commitment window — and,
/// for a top-up, the rule that the commitment is immutable until a full
/// unstake — the per-user and pool-wide caps on the resulting totals (net
/// of the fee), the stake rate limit, the transaction deadline, the MEV
/// cooldown for large amounts, the slippage floor on the net amount, and
/// finally the lifetime counters that a commit would overflow.
pub open spec fn stake_error(
    p: Pool,
    u: UserStake,
    amount: u64,
    committed_days: u64,
    min_expected_amount: u64,
    deadline: i64,
    now: i64,
    slot: u64,
) -> Option<ErrorCode> {
    let fee = spec_fee(amount, p.deposit_fee);
    let net = spec_net(amount, p.deposit_fee);
    if p.is_paused {
        Some(ErrorCode::PoolPaused)
    } else if !p.is_active {
        Some(ErrorCode::PoolInactive)
    } else if amount < p.min_stake_amount {
        Some(ErrorCode::AmountTooSmall)
    } else if amount > p.max_stake_amount {
        Some(ErrorCode::AmountTooLarge)
    } else if committed_days < p.min_commitment_days || committed_days > p.max_commitment_days {
        Some(ErrorCode::InvalidCommitment)
    } else if u.amount > 0 && committed_days != u.committed_days {
        Some(ErrorCode::InvalidCommitment)
    } else if u.amount + net > p.max_deposit_per_user {
        Some(ErrorCode::UserLimitExceeded)
    } else if p.total_staked + net > p.max_total_staked {
        Some(ErrorCode::PoolLimitExceeded)
    } else if !stake_rate_ok(u, now) {
        Some(ErrorCode::RateLimitExceeded)
    } else if !deadline_ok(now, deadline, p.transaction_deadline) {
        Some(ErrorCode::TransactionExpired)
    } else if !mev_ok(
        p.last_large_operation_slot,
        p.min_block_delay,
        slot,
        amount,
        LARGE_OPERATION_THRESHOLD,
    ) {
        Some(ErrorCode::MevProtectionActive)
    } else if !slippage_ok(min_expected_amount, net as u64, p.max_slippage_bps) {
        Some(ErrorCode::SlippageExceeded)
    } else if u.total_staked_lifetime + net > u64::MAX || u.total_days_staked + committed_days
        > u64::MAX || p.total_fees_collected + fee > u64::MAX || (u.amount == 0 && p.total_users
        + 1 > u64::MAX) {
        Some(ErrorCode::ArithmeticOverflow)
    } else {
        None
    }
}

/// The user record after a successful stake: the net amount joins the
/// active stake, both timestamps restart at `now`, the lifetime counters
/// grow, and the rate-limit counters advance — a first stake starts them
/// fresh and sets the commitment, which a top-up cannot change.
pub open spec fn stake_user_post(
    u: UserStake,
    caller: AccountId,
    amount: u64,
    committed_days: u64,
    fee_bps: u64,
    now: i64,
) -> UserStake {
    let net = spec_net(amount, fee_bps) as u64;
    let is_new = u.amount == 0;
    UserStake {
        user: caller,
        amount: (u.amount + net) as u64,
        committed_days,
        stake_timestamp: now,
        last_claim_timestamp: now,
        total_staked_lifetime: (u.total_staked_lifetime + net) as u64,
        total_days_staked: (u.total_days_staked + committed_days) as u64,
        last_claim_attempt: if is_new {
            0
        } else {
            u.last_claim_attempt
        },
        claim_attempts_count: if is_new {
            0
        } else {
            u.claim_attempts_count
        },
        last_stake_attempt: now,
        stake_attempts_count: if is_new {
            1
        } else {
            (effective_attempts(u.stake_attempts_count, u.last_stake_attempt, now) + 1) as u64
        },
        ..u
    }
}

/// The pool after a successful stake: the net amount joins the total, the
/// fee joins the collected fees, a first-time staker joins the user count,
/// and a large operation stamps the MEV slot.
pub open spec fn stake_pool_post(p: Pool, u: UserStake, amount: u64, now: i64, slot: u64) -> Pool {
    let fee = spec_fee(amount, p.deposit_fee) as u64;
    let net = spec_net(amount, p.deposit_fee) as u64;
    Pool {
        total_staked: (p.total_staked + net) as u64,
        total_fees_collected: (p.total_fees_collected + fee) as u64,
        total_users: if u.amount == 0 {
            (p.total_users + 1) as u64
        } else {
            p.total_users
        },
        updated_at: now,
        last_large_operation_slot: if amount >= LARGE_OPERATION_THRESHOLD {
            slot
        } else {
            p.last_large_operation_slot
        },
        ..p
    }
}

/// Deposits `amount` for `caller`. The deposit fee is withheld per the
/// fixed-point rule and the net remainder joins the user's stake and the
/// pool total; the host transfers `amount` into custody after this
/// succeeds. Any failed check aborts with both records untouched. The host
/// derives `user` from `caller`'s identity, so the record is the caller's
/// own.
pub fn stake(
    pool: &mut Pool,
    user: &mut UserStake,
    caller: AccountId,
    amount: u64,
    committed_days: u64,
    min_expected_amount: u64,
    deadline: i64,
    now: i64,
    slot: u64,
) -> (r: Result<StakeEvent, ErrorCode>)
    requires
        old(pool).wf(),
        old(user).wf(),
        0 <= now,
    ensures
        final(pool).wf(),
        final(user).wf(),
        ({
            let err = stake_error(
                *old(pool),
                *old(user),
                amount,
                committed_days,
                min_expected_amount,
                deadline,
                now,
                slot,
            );
            match r {
                Ok(ev) => err is None && *final(user) == stake_user_post(
                    *old(user),
                    caller,
                    amount,
                    committed_days,
                    old(pool).deposit_fee,
                    now,
                ) && *final(pool) == stake_pool_post(*old(pool), *old(user), amount, now, slot)
                    && ev == (StakeEvent {
                    user: caller,
                    amount: spec_net(amount, old(pool).deposit_fee) as u64,
                    committed_days,
                    fee_amount: spec_fee(amount, old(pool).deposit_fee) as u64,
                    timestamp: now,
                }),
                Err(e) => err == Some(e) && *final(pool) == *old(pool) && *final(user) == *old(
                    user,
                ),
            }
        }),
{
    if pool.is_paused {
        return Err(ErrorCode::PoolPaused);
    }
    if !pool.is_active {
        return Err(ErrorCode::PoolInactive);
    }
    if amount < pool.min_stake_amount {
        return Err(ErrorCode::AmountTooSmall);
    }
    if amount > pool.max_stake_amount {
        return Err(ErrorCode::AmountTooLarge);
    }
    if committed_days < pool.min_commitment_days || committed_days > pool.max_commitment_days {
        return Err(ErrorCode::InvalidCommitment);
    }
    if user.amount > 0 && committed_days != user.committed_days {
        return Err(ErrorCode::InvalidCommitment);
    }
    proof {
        lemma_fee_bounds(amount, pool.deposit_fee);
        lemma_net_positive(amount, pool.deposit_fee);
    }
    let (fee_amount, net_amount) = match compute_fee(amount, pool.deposit_fee) {
        Ok(split) => split,
        Err(e) => {
            return Err(e);
        },
    };
    if (user.amount as u128) + (net_amount as u128) > (pool.max_deposit_per_user as u128) {
        return Err(ErrorCode::UserLimitExceeded);
    }
    if (pool.total_staked as u128) + (net_amount as u128) > (pool.max_total_staked as u128) {
        return Err(ErrorCode::PoolLimitExceeded);
    }
    if check_stake_rate_limit(user, now).is_err() {
        return Err(ErrorCode::RateLimitExceeded);
    }
    if check_transaction_deadline(now, deadline, pool.transaction_deadline).is_err() {
        return Err(ErrorCode::TransactionExpired);
    }
    if check_mev_protection(pool, slot, amount, LARGE_OPERATION_THRESHOLD).is_err() {
        return Err(ErrorCode::MevProtectionActive);
    }
    if check_slippage_protection(min_expected_amount, net_amount, pool.max_slippage_bps).is_err() {
        return Err(ErrorCode::SlippageExceeded);
    }
    let new_lifetime = match user.total_staked_lifetime.checked_add(net_amount) {
        Some(v) => v,
        None => {
            return Err(ErrorCode::ArithmeticOverflow);
        },
    };
    let new_days_total = match user.total_days_staked.checked_add(committed_days) {
        Some(v) => v,
        None => {
            return Err(ErrorCode::ArithmeticOverflow);
        },
    };
    let new_fees = match pool.total_fees_collected.checked_add(fee_amount) {
        Some(v) => v,
        None => {
            return Err(ErrorCode::ArithmeticOverflow);
        },
    };
    let is_new_user = user.amount == 0;
    let new_users = if is_new_user {
        match pool.total_users.checked_add(1) {
            Some(v) => v,
            None => {
                return Err(ErrorCode::ArithmeticOverflow);
            },
        }
    } else {
        pool.total_users
    };
    let next_stake_attempts: u64 = if is_new_user {
        1
    } else {
        effective_attempt_count(user.stake_attempts_count, user.last_stake_attempt, now) + 1
    };

    user.user = caller;
    user.amount = user.amount + net_amount;
    user.committed_days = committed_days;
    user.stake_timestamp = now;
    user.last_claim_timestamp = now;
    user.total_staked_lifetime = new_lifetime;
    user.total_days_staked = new_days_total;
    if is_new_user {
        user.last_claim_attempt = 0;
        user.claim_attempts_count = 0;
    }
    user.last_stake_attempt = now;
    user.stake_attempts_count = next_stake_attempts;

    pool.total_staked = pool.total_staked + net_amount;
    pool.total_fees_collected = new_fees;
    pool.total_users = new_users;
    if amount >= LARGE_OPERATION_THRESHOLD {
        pool.last_large_operation_slot = slot;
    }
    pool.updated_at = now;

    Ok(
        StakeEvent {
            user: caller,
            amount: net_amount,
            committed_days,
            fee_amount,
            timestamp: now,
        },
    )
}

/// Why a claim refuses, if it does, in the order the checks run: the
/// reentrancy guard, pause and activity, an existing stake, the claim rate
/// limit, the commitment having elapsed, the yield fitting its type and
/// being positive, the vault covering it, and the lifetime counters that a
/// commit would overflow.
pub open spec fn claim_error(p: Pool, u: UserStake, vault_balance: u64, now: i64) -> Option<
    ErrorCode,
> {
    let days = spec_days_staked(u.stake_timestamp, now);
    let y = spec_yield(u.amount, p.apy, days as u64);
    if p.reentrancy_guard {
        Some(ErrorCode::ReentrancyDetected)
    } else if p.is_paused {
        Some(ErrorCode::PoolPaused)
    } else if !p.is_active {
        Some(ErrorCode::PoolInactive)
    } else if u.amount == 0 {
        Some(ErrorCode::NoStake)
    } else if !claim_rate_ok(u, now) {
        Some(ErrorCode::RateLimitExceeded)
    } else if days < u.committed_days {
        Some(ErrorCode::CommitmentNotMet)
    } else if y > u64::MAX {
        Some(ErrorCode::ArithmeticOverflow)
    } else if y == 0 {
        Some(ErrorCode::NoYieldsToClaim)
    } else if y > vault_balance {
        Some(ErrorCode::InsufficientFunds)
    } else if u.total_yields_claimed + y > u64::MAX || p.total_yields_paid + y > u64::MAX {
        Some(ErrorCode::ArithmeticOverflow)
    } else {
        None
    }
}

/// The yield a claim at `now` pays: the fixed-point accrual over the whole
/// days since the stake began.
pub open spec fn claim_amount(p: Pool, u: UserStake, now: i64) -> int {
    spec_yield(u.amount, p.apy, spec_days_staked(u.stake_timestamp, now) as u64)
}

/// Pays out the yield accrued since the stake began. The commitment must
/// have elapsed; the host transfers the returned event's `yields` from the
/// vault to the user after this succeeds. Reentrancy-guarded: entered with
/// the flag set, it fails at once, and it never leaves the flag stuck.
pub fn claim_yields(pool: &mut Pool, user: &mut UserStake, vault_balance: u64, now: i64) -> (r:
    Result<ClaimEvent, ErrorCode>)
    requires
        old(pool).wf(),
        old(user).wf(),
        0 <= now,
        old(user).stake_timestamp <= now,
    ensures
        final(pool).wf(),
        final(user).wf(),
        // A reentrant call — the guard already held — always fails with
        // `ReentrancyDetected`, and (below) changes nothing.
        old(pool).reentrancy_guard ==> r == Err::<ClaimEvent, ErrorCode>(
            ErrorCode::ReentrancyDetected,
        ),
        // The guard is released on every exit path.
        !old(pool).reentrancy_guard ==> !final(pool).reentrancy_guard,
        ({
            let err = claim_error(*old(pool), *old(user), vault_balance, now);
            let y = claim_amount(*old(pool), *old(user), now);
            match r {
                Ok(ev) => err is None && *final(user) == (UserStake {
                    last_claim_timestamp: now,
                    total_yields_claimed: (old(user).total_yields_claimed + y) as u64,
                    last_claim_attempt: now,
                    claim_attempts_count: (effective_attempts(
                        old(user).claim_attempts_count,
                        old(user).last_claim_attempt,
                        now,
                    ) + 1) as u64,
                    ..*old(user)
                }) && *final(pool) == (Pool {
                    total_yields_paid: (old(pool).total_yields_paid + y) as u64,
                    updated_at: now,
                    ..*old(pool)
                }) && ev == (ClaimEvent { user: old(user).user, yields: y as u64, timestamp: now }),
                Err(e) => err == Some(e) && *final(pool) == *old(pool) && *final(user) == *old(
                    user,
                ),
            }
        }),
{
    if pool.reentrancy_guard {
        return Err(ErrorCode::ReentrancyDetected);
    }
    pool.reentrancy_guard = true;

    if pool.is_paused {
        pool.reentrancy_guard = false;
        return Err(ErrorCode::PoolPaused);
    }
    if !pool.is_active {
        pool.reentrancy_guard = false;
        return Err(ErrorCode::PoolInactive);
    }
    if user.amount == 0 {
        pool.reentrancy_guard = false;
        return Err(ErrorCode::NoStake);
    }
    if check_claim_rate_limit(user, now).is_err() {
        pool.reentrancy_guard = false;
        return Err(ErrorCode::RateLimitExceeded);
    }
    let time_staked: i64 = now - user.stake_timestamp;
    let days_staked: u64 = (time_staked as u64) / SECONDS_PER_DAY;
    if days_staked < user.committed_days {
        pool.reentrancy_guard = false;
        return Err(ErrorCode::CommitmentNotMet);
    }
    let yields = match compute_yield(user.amount, pool.apy, days_staked) {
        Ok(y) => y,
        Err(e) => {
            pool.reentrancy_guard = false;
            return Err(e);
        },
    };
    if yields == 0 {
        pool.reentrancy_guard = false;
        return Err(ErrorCode::NoYieldsToClaim);
    }
    if yields > vault_balance {
        pool.reentrancy_guard = false;
        return Err(ErrorCode::InsufficientFunds);
    }
    let new_claimed = match user.total_yields_claimed.checked_add(yields) {
        Some(v) => v,
        None => {
            pool.reentrancy_guard = false;
            return Err(ErrorCode::ArithmeticOverflow);
        },
    };
    let new_paid = match pool.total_yields_paid.checked_add(yields) {
        Some(v) => v,
        None => {
            pool.reentrancy_guard = false;
            return Err(ErrorCode::ArithmeticOverflow);
        },
    };
    let next_claim_attempts: u64 = effective_attempt_count(
        user.claim_attempts_count,
        user.last_claim_attempt,
        now,
    ) + 1;

    user.last_claim_timestamp = now;
    user.total_yields_claimed = new_claimed;
    user.last_claim_attempt = now;
    user.claim_attempts_count = next_claim_attempts;

    pool.total_yields_paid = new_paid;
    pool.updated_at = now;
    pool.reentrancy_guard = false;

    Ok(ClaimEvent { user: user.user, yields, timestamp: now })
}

/// Whether an unstake at `now` met its commitment and leaves with yield, or
/// leaves early and pays the 5% penalty.
pub open spec fn unstake_commitment_met(u: UserStake, now: i64) -> bool {
    spec_days_staked(u.stake_timestamp, now) >= u.committed_days
}

/// What an unstake at `now` returns to the user: principal plus accrued
/// yield after the commitment, principal minus the 5% penalty before it.
pub open spec fn unstake_return_amount(p: Pool, u: UserStake, now: i64) -> int {
    if unstake_commitment_met(u, now) {
        u.amount + claim_amount(p, u, now)
    } else {
        u.amount - spec_penalty(u.amount)
    }
}

/// Why an unstake refuses, if it does, in the order the checks run: the
/// reentrancy guard, pause, an existing stake, the yield-and-return
/// arithmetic fitting its type, the vault covering the payout, and the pool
/// aggregates staying consistent.
pub open spec fn unstake_error(p: Pool, u: UserStake, vault_balance: u64, now: i64) -> Option<
    ErrorCode,
> {
    if p.reentrancy_guard {
        Some(ErrorCode::ReentrancyDetected)
    } else if p.is_paused {
        Some(ErrorCode::PoolPaused)
    } else if u.amount == 0 {
        Some(ErrorCode::NoStake)
    } else if unstake_commitment_met(u, now) && (claim_amount(p, u, now) > u64::MAX || u.amount
        + claim_amount(p, u, now) > u64::MAX) {
        Some(ErrorCode::ArithmeticOverflow)
    } else if unstake_return_amount(p, u, now) > vault_balance {
        Some(ErrorCode::InsufficientFunds)
    } else if p.total_staked < u.amount {
        Some(ErrorCode::ArithmeticOverflow)
    } else if p.total_users < 1 {
        Some(ErrorCode::ArithmeticOverflow)
    } else {
        None
    }
}

/// Closes the stake. After the commitment the user leaves with principal
/// plus accrued yield; before it, with principal less the 5% penalty. The
/// record is reset to its empty state and the pool aggregates shrink by the
/// original principal; the host transfers the payout after this succeeds.
/// Reentrancy-guarded like `claim_yields`.
pub fn unstake(pool: &mut Pool, user: &mut UserStake, vault_balance: u64, now: i64) -> (r: Result<
    UnstakeEvent,
    ErrorCode,
>)
    requires
        old(pool).wf(),
        old(user).wf(),
        0 <= now,
        old(user).stake_timestamp <= now,
    ensures
        final(pool).wf(),
        final(user).wf(),
        // A reentrant call — the guard already held — always fails with
        // `ReentrancyDetected`, and (below) changes nothing.
        old(pool).reentrancy_guard ==> r == Err::<UnstakeEvent, ErrorCode>(
            ErrorCode::ReentrancyDetected,
        ),
        // The guard is released on every exit path.
        !old(pool).reentrancy_guard ==> !final(pool).reentrancy_guard,
        ({
            let err = unstake_error(*old(pool), *old(user), vault_balance, now);
            let met = unstake_commitment_met(*old(user), now);
            let y = claim_amount(*old(pool), *old(user), now);
            match r {
                Ok(ev) => err is None && *final(user) == (UserStake {
                    amount: 0,
                    committed_days: 0,
                    stake_timestamp: 0,
                    last_claim_timestamp: 0,
                    ..*old(user)
                }) && *final(pool) == (Pool {
                    total_staked: (old(pool).total_staked - old(user).amount) as u64,
                    total_users: (old(pool).total_users - 1) as u64,
                    updated_at: now,
                    ..*old(pool)
                }) && ev == (UnstakeEvent {
                    user: old(user).user,
                    amount: old(user).amount,
                    yields: if met {
                        y as u64
                    } else {
                        0
                    },
                    penalty: if met {
                        0
                    } else {
                        spec_penalty(old(user).amount) as u64
                    },
                    timestamp: now,
                }),
                Err(e) => err == Some(e) && *final(pool) == *old(pool) && *final(user) == *old(
                    user,
                ),
            }
        }),
{
    if pool.reentrancy_guard {
        return Err(ErrorCode::ReentrancyDetected);
    }
    pool.reentrancy_guard = true;

    if pool.is_paused {
        pool.reentrancy_guard = false;
        return Err(ErrorCode::PoolPaused);
    }
    if user.amount == 0 {
        pool.reentrancy_guard = false;
        return Err(ErrorCode::NoStake);
    }
    let time_staked: i64 = now - user.stake_timestamp;
    let days_staked: u64 = (time_staked as u64) / SECONDS_PER_DAY;

    let mut yields: u64 = 0;
    let mut penalty: u64 = 0;
    let return_amount: u64;
    if days_staked >= user.committed_days {
        yields = match compute_yield(user.amount, pool.apy, days_staked) {
            Ok(y) => y,
            Err(e) => {
                pool.reentrancy_guard = false;
                return Err(e);
            },
        };
        return_amount = match user.amount.checked_add(yields) {
            Some(v) => v,
            None => {
                pool.reentrancy_guard = false;
                return Err(ErrorCode::ArithmeticOverflow);
            },
        };
    } else {
        penalty = compute_penalty(user.amount);
        return_amount = user.amount - penalty;
    }
    if return_amount > vault_balance {
        pool.reentrancy_guard = false;
        return Err(ErrorCode::InsufficientFunds);
    }
    if pool.total_staked < user.amount {
        pool.reentrancy_guard = false;
        return Err(ErrorCode::ArithmeticOverflow);
    }
    if pool.total_users < 1 {
        pool.reentrancy_guard = false;
        return Err(ErrorCode::ArithmeticOverflow);
    }

    let principal = user.amount;
    pool.total_staked = pool.total_staked - principal;
    pool.total_users = pool.total_users - 1;
    pool.updated_at = now;

    user.amount = 0;
    user.committed_days = 0;
    user.stake_timestamp = 0;
    user.last_claim_timestamp = 0;

    pool.reentrancy_guard = false;

    Ok(
        UnstakeEvent {
            user: user.user,
            amount: principal,
            yields,
            penalty,
            timestamp: now,
        },
    )
}

/// Law: the commitment is immutable while a stake is active — a successful
/// top-up leaves `committed_days` exactly as it was, and only a full
/// unstake resets it.
pub proof fn lemma_commitment_immutable(
    p: Pool,
    u: UserStake,
    caller: AccountId,
    amount: u64,
    committed_days: u64,
    min_expected_amount: u64,
    deadline: i64,
    now: i64,
    slot: u64,
)
    requires
        u.amount > 0,
        stake_error(p, u, amount, committed_days, min_expected_amount, deadline, now, slot)
            is None,
    ensures
        stake_user_post(
            u,
            caller,
            amount,
            committed_days,
            p.deposit_fee,
            now,
        ).committed_days == u.committed_days,
{
}

/// Law: a successful stake preserves the data-model invariant — the pool
/// total stays the sum of the active stakes, and the user count stays the
/// number of active records — when record `i` of the ledger is the one
/// staking.
pub proof fn lemma_stake_preserves_ledger(
    p: Pool,
    users: Seq<UserStake>,
    i: int,
    caller: AccountId,
    amount: u64,
    committed_days: u64,
    min_expected_amount: u64,
    deadline: i64,
    now: i64,
    slot: u64,
)
    requires
        p.wf(),
        0 <= i < users.len(),
        crate::state::ledger_consistent(p, users),
        stake_error(p, users[i], amount, committed_days, min_expected_amount, deadline, now, slot)
            is None,
    ensures
        crate::state::ledger_consistent(
            stake_pool_post(p, users[i], amount, now, slot),
            users.update(
                i,
                stake_user_post(users[i], caller, amount, committed_days, p.deposit_fee, now),
            ),
        ),
{
    lemma_fee_bounds(amount, p.deposit_fee);
    lemma_net_positive(amount, p.deposit_fee);
    crate::state::lemma_ledger_update(
        users,
        i,
        stake_user_post(users[i], caller, amount, committed_days, p.deposit_fee, now),
    );
}

/// Law: a successful claim preserves the data-model invariant: it moves no
/// principal, so neither aggregate changes.
pub proof fn lemma_claim_preserves_ledger(
    p: Pool,
    users: Seq<UserStake>,
    i: int,
    vault_balance: u64,
    now: i64,
)
    requires
        0 <= i < users.len(),
        crate::state::ledger_consistent(p, users),
        claim_error(p, users[i], vault_balance, now) is None,
    ensures
        crate::state::ledger_consistent(
            (Pool {
                total_yields_paid: (p.total_yields_paid + claim_amount(p, users[i], now)) as u64,
                updated_at: now,
                ..p
            }),
            users.update(
                i,
                (UserStake {
                    last_claim_timestamp: now,
                    total_yields_claimed: (users[i].total_yields_claimed + claim_amount(
                        p,
                        users[i],
                        now,
                    )) as u64,
                    last_claim_attempt: now,
                    claim_attempts_count: (effective_attempts(
                        users[i].claim_attempts_count,
                        users[i].last_claim_attempt,
                        now,
                    ) + 1) as u64,
                    ..users[i]
                }),
            ),
        ),
{
    crate::state::lemma_ledger_update(
        users,
        i,
        (UserStake {
            last_claim_timestamp: now,
            total_yields_claimed: (users[i].total_yields_claimed + claim_amount(
                p,
                users[i],
                now,
            )) as u64,
            last_claim_attempt: now,
            claim_attempts_count: (effective_attempts(
                users[i].claim_attempts_count,
                users[i].last_claim_attempt,
                now,
            ) + 1) as u64,
            ..users[i]
        }),
    );
}

/// Law: a successful unstake preserves the data-model invariant: the
/// departing record's principal leaves the total and its user leaves the
/// count.
pub proof fn lemma_unstake_preserves_ledger(
    p: Pool,
    users: Seq<UserStake>,
    i: int,
    vault_balance: u64,
    now: i64,
)
    requires
        0 <= i < users.len(),
        crate::state::ledger_consistent(p, users),
        unstake_error(p, users[i], vault_balance, now) is None,
    ensures
        crate::state::ledger_consistent(
            (Pool {
                total_staked: (p.total_staked - users[i].amount) as u64,
                total_users: (p.total_users - 1) as u64,
                updated_at: now,
                ..p
            }),
            users.update(
                i,
                (UserStake {
                    amount: 0,
                    committed_days: 0,
                    stake_timestamp: 0,
                    last_claim_timestamp: 0,
                    ..users[i]
                }),
            ),
        ),
{
    crate::state::lemma_ledger_update(
        users,
        i,
        (UserStake {
            amount: 0,
            committed_days: 0,
            stake_timestamp: 0,
            last_claim_timestamp: 0,
            ..users[i]
        }),
    );
}

/// Law: a fresh stake unstaked before its commitment elapses returns the
/// net staked amount less the 5% early-exit penalty — exactly
/// `net - floor(net * 500 / 10000)`.
pub proof fn lemma_stake_unstake_early(
    p: Pool,
    u: UserStake,
    caller: AccountId,
    amount: u64,
    committed_days: u64,
    min_expected_amount: u64,
    deadline: i64,
    now: i64,
    slot: u64,
    now2: i64,
)
    requires
        p.wf(),
        u.wf(),
        u.amount == 0,
        stake_error(p, u, amount, committed_days, min_expected_amount, deadline, now, slot)
            is None,
        now <= now2,
        spec_days_staked(now, now2) < committed_days,
    ensures
        ({
            let u1 = stake_user_post(u, caller, amount, committed_days, p.deposit_fee, now);
            let p1 = stake_pool_post(p, u, amount, now, slot);
            let net = spec_net(amount, p.deposit_fee);
            &&& !unstake_commitment_met(u1, now2)
            &&& unstake_return_amount(p1, u1, now2) == net - (net * 500 / 10000)
        }),
{
    lemma_fee_bounds(amount, p.deposit_fee);
}

/// Law: a fresh stake unstaked once its commitment has elapsed returns the
/// net staked amount plus the accrued yield, with no penalty.
pub proof fn lemma_stake_unstake_after_commitment(
    p: Pool,
    u: UserStake,
    caller: AccountId,
    amount: u64,
    committed_days: u64,
    min_expected_amount: u64,
    deadline: i64,
    now: i64,
    slot: u64,
    now2: i64,
)
    requires
        p.wf(),
        u.wf(),
        u.amount == 0,
        stake_error(p, u, amount, committed_days, min_expected_amount, deadline, now, slot)
            is None,
        now <= now2,
        spec_days_staked(now, now2) >= committed_days,
    ensures
        ({
            let u1 = stake_user_post(u, caller, amount, committed_days, p.deposit_fee, now);
            let p1 = stake_pool_post(p, u, amount, now, slot);
            let net = spec_net(amount, p.deposit_fee);
            &&& unstake_commitment_met(u1, now2)
            &&& unstake_return_amount(p1, u1, now2) == net + spec_yield(
                net as u64,
                p.apy,
                spec_days_staked(now, now2) as u64,
            )
        }),
{
    lemma_fee_bounds(amount, p.deposit_fee);
}

} // verus!
