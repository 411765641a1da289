//! Pool lifecycle and direct admin operations: initialization with its
//! parameter validation, the emergency pause switch, bounded APY and fee
//! updates, limit updates, and fee withdrawal accounting. Every operation is
//! admin-gated; pause blocks the staking handlers but leaves these
//! available.

use vstd::prelude::*;

use crate::errors::ErrorCode;
use crate::events::EmergencyPauseEvent;
use crate::events::EmergencyUnpauseEvent;
use crate::events::ParameterUpdateEvent;
use crate::events::PoolInitializedEvent;
use crate::events::UpdatedParameter;
use crate::state::AccountId;
use crate::state::LAMPORTS_PER_SOL;
use crate::state::Pool;

verus! {

/// APY a fresh pool starts with, in basis points (12%), capped by the
/// configured maximum.
pub const DEFAULT_APY_BPS: u64 = 1200;

/// Deposit fee a fresh pool starts with, in basis points (0.5%).
pub const DEFAULT_DEPOSIT_FEE_BPS: u64 = 50;

/// Default oracle staleness threshold in seconds.
pub const DEFAULT_PRICE_STALENESS_SECONDS: u64 = 60;

/// Default maximum price deviation in basis points (10%).
pub const DEFAULT_MAX_PRICE_DEVIATION_BPS: u64 = 1000;

/// Default circuit-breaker threshold in basis points (20%).
pub const DEFAULT_CIRCUIT_BREAKER_BPS: u64 = 2000;

/// Default timelock delay for governance actions, in seconds (24 hours).
pub const DEFAULT_TIMELOCK_DELAY_SECONDS: u64 = 86400;

/// Default slippage tolerance in basis points (1%).
pub const DEFAULT_MAX_SLIPPAGE_BPS: u64 = 100;

/// Default transaction deadline in seconds (5 minutes).
pub const DEFAULT_TRANSACTION_DEADLINE_SECONDS: u64 = 300;

/// Default minimum slots between large operations.
pub const DEFAULT_MIN_BLOCK_DELAY: u64 = 10;

/// Default cap on one user's total deposit (1000 SOL).
pub const DEFAULT_MAX_DEPOSIT_PER_USER: u64 = 1000 * LAMPORTS_PER_SOL;

/// Default cap on the pool's total stake (100000 SOL).
pub const DEFAULT_MAX_TOTAL_STAKED: u64 = 100000 * LAMPORTS_PER_SOL;

/// Default minimum stake (0.1 SOL).
pub const DEFAULT_MIN_STAKE_AMOUNT: u64 = 100000000;

/// Default maximum stake per operation (100 SOL).
pub const DEFAULT_MAX_STAKE_AMOUNT: u64 = 100 * LAMPORTS_PER_SOL;

/// Why initialization refuses its parameters, if it does: the APY ceiling
/// may not pass 50%, and the commitment window must sit within [1, 365]
/// days with its minimum at most its maximum.
pub open spec fn initialize_error(max_apy: u64, min_commitment_days: u64, max_commitment_days: u64) -> Option<
    ErrorCode,
> {
    if max_apy > 5000 {
        Some(ErrorCode::InvalidApy)
    } else if min_commitment_days < 1 {
        Some(ErrorCode::InvalidCommitment)
    } else if max_commitment_days > 365 {
        Some(ErrorCode::InvalidCommitment)
    } else if min_commitment_days > max_commitment_days {
        Some(ErrorCode::InvalidCommitment)
    } else {
        None
    }
}

/// The pool exactly as initialization writes it: defaults for rates, fees,
/// limits and guard parameters, the caller as admin and sole multisig
/// signer, and all aggregates at zero. The starting APY is the default
/// capped by the configured maximum, so the pool begins within its own
/// bounds. `signers` carries the signer vector, whose view is pinned to
/// `seq![admin]` where this function is applied.
pub open spec fn initial_pool(
    admin: AccountId,
    max_apy: u64,
    min_commitment_days: u64,
    max_commitment_days: u64,
    sol_price_feed: AccountId,
    now: i64,
    signers: Vec<AccountId>,
) -> Pool {
    Pool {
        admin,
        total_staked: 0,
        total_users: 0,
        apy: if DEFAULT_APY_BPS <= max_apy {
            DEFAULT_APY_BPS
        } else {
            max_apy
        },
        deposit_fee: DEFAULT_DEPOSIT_FEE_BPS,
        max_apy,
        min_commitment_days,
        max_commitment_days,
        is_active: true,
        is_paused: false,
        emergency_pause_reason: None,
        total_fees_collected: 0,
        total_yields_paid: 0,
        last_rebalance_timestamp: now,
        max_deposit_per_user: DEFAULT_MAX_DEPOSIT_PER_USER,
        max_total_staked: DEFAULT_MAX_TOTAL_STAKED,
        min_stake_amount: DEFAULT_MIN_STAKE_AMOUNT,
        max_stake_amount: DEFAULT_MAX_STAKE_AMOUNT,
        created_at: now,
        updated_at: now,
        sol_price_feed,
        price_staleness_threshold: DEFAULT_PRICE_STALENESS_SECONDS,
        max_price_deviation: DEFAULT_MAX_PRICE_DEVIATION_BPS,
        circuit_breaker_threshold: DEFAULT_CIRCUIT_BREAKER_BPS,
        last_price_update: 0,
        multisig_threshold: 1,
        multisig_signers: signers,
        pending_admin_action: None,
        action_timelock_delay: DEFAULT_TIMELOCK_DELAY_SECONDS,
        reentrancy_guard: false,
        max_slippage_bps: DEFAULT_MAX_SLIPPAGE_BPS,
        transaction_deadline: DEFAULT_TRANSACTION_DEADLINE_SECONDS,
        min_block_delay: DEFAULT_MIN_BLOCK_DELAY,
        last_large_operation_slot: 0,
    }
}

/// Creates the pool. The bounds are validated, then every field is set to
/// its documented default; the caller becomes admin and the single multisig
/// signer with threshold one, and all guards start disarmed.
pub fn initialize_pool(
    admin: AccountId,
    max_apy: u64,
    min_commitment_days: u64,
    max_commitment_days: u64,
    sol_price_feed: AccountId,
    now: i64,
) -> (r: Result<(Pool, PoolInitializedEvent), ErrorCode>)
    requires
        0 <= now,
    ensures
        ({
            let err = initialize_error(max_apy, min_commitment_days, max_commitment_days);
            match r {
                Ok(p) => err is None && p.0.multisig_signers@ =~= seq![admin] && p.0
                    == initial_pool(
                    admin,
                    max_apy,
                    min_commitment_days,
                    max_commitment_days,
                    sol_price_feed,
                    now,
                    p.0.multisig_signers,
                ) && p.0.wf() && p.1 == (PoolInitializedEvent { admin, timestamp: now }),
                Err(e) => err == Some(e),
            }
        }),
{
    if max_apy > 5000 {
        return Err(ErrorCode::InvalidApy);
    }
    if min_commitment_days < 1 {
        return Err(ErrorCode::InvalidCommitment);
    }
    if max_commitment_days > 365 {
        return Err(ErrorCode::InvalidCommitment);
    }
    if min_commitment_days > max_commitment_days {
        return Err(ErrorCode::InvalidCommitment);
    }
    let mut signers: Vec<AccountId> = Vec::new();
    signers.push(admin);
    proof {
        assert(signers@ =~= seq![admin]);
    }
    let pool = Pool {
        admin,
        total_staked: 0,
        total_users: 0,
        apy: if DEFAULT_APY_BPS <= max_apy {
            DEFAULT_APY_BPS
        } else {
            max_apy
        },
        deposit_fee: DEFAULT_DEPOSIT_FEE_BPS,
        max_apy,
        min_commitment_days,
        max_commitment_days,
        is_active: true,
        is_paused: false,
        emergency_pause_reason: None,
        total_fees_collected: 0,
        total_yields_paid: 0,
        last_rebalance_timestamp: now,
        max_deposit_per_user: DEFAULT_MAX_DEPOSIT_PER_USER,
        max_total_staked: DEFAULT_MAX_TOTAL_STAKED,
        min_stake_amount: DEFAULT_MIN_STAKE_AMOUNT,
        max_stake_amount: DEFAULT_MAX_STAKE_AMOUNT,
        created_at: now,
        updated_at: now,
        sol_price_feed,
        price_staleness_threshold: DEFAULT_PRICE_STALENESS_SECONDS,
        max_price_deviation: DEFAULT_MAX_PRICE_DEVIATION_BPS,
        circuit_breaker_threshold: DEFAULT_CIRCUIT_BREAKER_BPS,
        last_price_update: 0,
        multisig_threshold: 1,
        multisig_signers: signers,
        pending_admin_action: None,
        action_timelock_delay: DEFAULT_TIMELOCK_DELAY_SECONDS,
        reentrancy_guard: false,
        max_slippage_bps: DEFAULT_MAX_SLIPPAGE_BPS,
        transaction_deadline: DEFAULT_TRANSACTION_DEADLINE_SECONDS,
        min_block_delay: DEFAULT_MIN_BLOCK_DELAY,
        last_large_operation_slot: 0,
    };
    let event = PoolInitializedEvent { admin, timestamp: now };
    Ok((pool, event))
}

/// Pauses the pool and records the reason. Admin only; the pause blocks
/// stake, claim and unstake until it is lifted.
pub fn emergency_pause(pool: &mut Pool, caller: AccountId, reason: String, now: i64) -> (r: Result<
    EmergencyPauseEvent,
    ErrorCode,
>)
    requires
        old(pool).wf(),
        0 <= now,
    ensures
        final(pool).wf(),
        match r {
            Ok(ev) => caller == old(pool).admin && *final(pool) == (Pool {
                is_paused: true,
                emergency_pause_reason: Some(reason),
                updated_at: now,
                ..*old(pool)
            }) && ev == (EmergencyPauseEvent { admin: caller, timestamp: now }),
            Err(e) => caller != old(pool).admin && e == ErrorCode::Unauthorized && *final(pool)
                == *old(pool),
        },
{
    if caller != pool.admin {
        return Err(ErrorCode::Unauthorized);
    }
    pool.is_paused = true;
    pool.emergency_pause_reason = Some(reason);
    pool.updated_at = now;
    Ok(EmergencyPauseEvent { admin: caller, timestamp: now })
}

/// Lifts the emergency pause and clears the recorded reason. Admin only.
pub fn emergency_unpause(pool: &mut Pool, caller: AccountId, now: i64) -> (r: Result<
    EmergencyUnpauseEvent,
    ErrorCode,
>)
    requires
        old(pool).wf(),
        0 <= now,
    ensures
        final(pool).wf(),
        match r {
            Ok(ev) => caller == old(pool).admin && *final(pool) == (Pool {
                is_paused: false,
                emergency_pause_reason: None,
                updated_at: now,
                ..*old(pool)
            }) && ev == (EmergencyUnpauseEvent { admin: caller, timestamp: now }),
            Err(e) => caller != old(pool).admin && e == ErrorCode::Unauthorized && *final(pool)
                == *old(pool),
        },
{
    if caller != pool.admin {
        return Err(ErrorCode::Unauthorized);
    }
    pool.is_paused = false;
    pool.emergency_pause_reason = None;
    pool.updated_at = now;
    Ok(EmergencyUnpauseEvent { admin: caller, timestamp: now })
}

/// Why a direct APY update refuses, if it does: admin only, and the new APY
/// must sit within [100, max_apy] basis points.
pub open spec fn update_apy_error(pool: Pool, caller: AccountId, new_apy: u64) -> Option<
    ErrorCode,
> {
    if caller != pool.admin {
        Some(ErrorCode::Unauthorized)
    } else if new_apy > pool.max_apy {
        Some(ErrorCode::InvalidApy)
    } else if new_apy < 100 {
        Some(ErrorCode::InvalidApy)
    } else {
        None
    }
}

/// Sets the APY within its bounds. Admin only.
pub fn update_apy(pool: &mut Pool, caller: AccountId, new_apy: u64, now: i64) -> (r: Result<
    ParameterUpdateEvent,
    ErrorCode,
>)
    requires
        old(pool).wf(),
        0 <= now,
    ensures
        final(pool).wf(),
        match r {
            Ok(ev) => update_apy_error(*old(pool), caller, new_apy) is None && *final(pool)
                == (Pool { apy: new_apy, updated_at: now, ..*old(pool) }) && ev
                == (ParameterUpdateEvent {
                admin: caller,
                parameter: UpdatedParameter::Apy,
                old_value: old(pool).apy,
                new_value: new_apy,
                timestamp: now,
            }),
            Err(e) => update_apy_error(*old(pool), caller, new_apy) == Some(e) && *final(pool)
                == *old(pool),
        },
{
    if caller != pool.admin {
        return Err(ErrorCode::Unauthorized);
    }
    if new_apy > pool.max_apy {
        return Err(ErrorCode::InvalidApy);
    }
    if new_apy < 100 {
        return Err(ErrorCode::InvalidApy);
    }
    let old_apy = pool.apy;
    pool.apy = new_apy;
    pool.updated_at = now;
    Ok(
        ParameterUpdateEvent {
            admin: caller,
            parameter: UpdatedParameter::Apy,
            old_value: old_apy,
            new_value: new_apy,
            timestamp: now,
        },
    )
}

/// Why a direct fee update refuses, if it does: admin only, and the new fee
/// must sit within [10, 1000] basis points (0.1% to 10%).
pub open spec fn update_fee_error(pool: Pool, caller: AccountId, new_fee: u64) -> Option<
    ErrorCode,
> {
    if caller != pool.admin {
        Some(ErrorCode::Unauthorized)
    } else if new_fee > 1000 {
        Some(ErrorCode::InvalidFee)
    } else if new_fee < 10 {
        Some(ErrorCode::InvalidFee)
    } else {
        None
    }
}

/// Sets the deposit fee within its bounds. Admin only.
pub fn update_deposit_fee(pool: &mut Pool, caller: AccountId, new_fee: u64, now: i64) -> (r: Result<
    ParameterUpdateEvent,
    ErrorCode,
>)
    requires
        old(pool).wf(),
        0 <= now,
    ensures
        final(pool).wf(),
        match r {
            Ok(ev) => update_fee_error(*old(pool), caller, new_fee) is None && *final(pool)
                == (Pool { deposit_fee: new_fee, updated_at: now, ..*old(pool) }) && ev
                == (ParameterUpdateEvent {
                admin: caller,
                parameter: UpdatedParameter::DepositFee,
                old_value: old(pool).deposit_fee,
                new_value: new_fee,
                timestamp: now,
            }),
            Err(e) => update_fee_error(*old(pool), caller, new_fee) == Some(e) && *final(pool)
                == *old(pool),
        },
{
    if caller != pool.admin {
        return Err(ErrorCode::Unauthorized);
    }
    if new_fee > 1000 {
        return Err(ErrorCode::InvalidFee);
    }
    if new_fee < 10 {
        return Err(ErrorCode::InvalidFee);
    }
    let old_fee = pool.deposit_fee;
    pool.deposit_fee = new_fee;
    pool.updated_at = now;
    Ok(
        ParameterUpdateEvent {
            admin: caller,
            parameter: UpdatedParameter::DepositFee,
            old_value: old_fee,
            new_value: new_fee,
            timestamp: now,
        },
    )
}

/// Why a limit update refuses, if it does: admin only; every cap must be
/// positive where the rule asks it, the pool-wide cap must stay above what
/// is already staked, and the per-stake window must nest inside the
/// per-user cap.
pub open spec fn update_limits_error(
    pool: Pool,
    caller: AccountId,
    max_deposit_per_user: u64,
    max_total_staked: u64,
    min_stake_amount: u64,
    max_stake_amount: u64,
) -> Option<ErrorCode> {
    if caller != pool.admin {
        Some(ErrorCode::Unauthorized)
    } else if max_deposit_per_user == 0 {
        Some(ErrorCode::InvalidLimit)
    } else if max_total_staked <= pool.total_staked {
        Some(ErrorCode::InvalidLimit)
    } else if min_stake_amount == 0 {
        Some(ErrorCode::InvalidLimit)
    } else if max_stake_amount < min_stake_amount {
        Some(ErrorCode::InvalidLimit)
    } else if max_deposit_per_user < max_stake_amount {
        Some(ErrorCode::InvalidLimit)
    } else {
        None
    }
}

/// Replaces the four stake limits after validating them against each other
/// and against the current total. Admin only.
pub fn update_pool_limits(
    pool: &mut Pool,
    caller: AccountId,
    max_deposit_per_user: u64,
    max_total_staked: u64,
    min_stake_amount: u64,
    max_stake_amount: u64,
    now: i64,
) -> (r: Result<(), ErrorCode>)
    requires
        old(pool).wf(),
        0 <= now,
    ensures
        final(pool).wf(),
        ({
            let err = update_limits_error(
                *old(pool),
                caller,
                max_deposit_per_user,
                max_total_staked,
                min_stake_amount,
                max_stake_amount,
            );
            match r {
                Ok(u) => err is None && *final(pool) == (Pool {
                    max_deposit_per_user,
                    max_total_staked,
                    min_stake_amount,
                    max_stake_amount,
                    updated_at: now,
                    ..*old(pool)
                }),
                Err(e) => err == Some(e) && *final(pool) == *old(pool),
            }
        }),
{
    if caller != pool.admin {
        return Err(ErrorCode::Unauthorized);
    }
    if max_deposit_per_user == 0 {
        return Err(ErrorCode::InvalidLimit);
    }
    if max_total_staked <= pool.total_staked {
        return Err(ErrorCode::InvalidLimit);
    }
    if min_stake_amount == 0 {
        return Err(ErrorCode::InvalidLimit);
    }
    if max_stake_amount < min_stake_amount {
        return Err(ErrorCode::InvalidLimit);
    }
    if max_deposit_per_user < max_stake_amount {
        return Err(ErrorCode::InvalidLimit);
    }
    pool.max_deposit_per_user = max_deposit_per_user;
    pool.max_total_staked = max_total_staked;
    pool.min_stake_amount = min_stake_amount;
    pool.max_stake_amount = max_stake_amount;
    pool.updated_at = now;
    Ok(())
}

/// Why a fee withdrawal refuses, if it does: admin only, and neither the
/// collected-fee ledger nor the vault may be overdrawn.
pub open spec fn withdraw_fees_error(
    pool: Pool,
    caller: AccountId,
    amount: u64,
    vault_balance: u64,
) -> Option<ErrorCode> {
    if caller != pool.admin {
        Some(ErrorCode::Unauthorized)
    } else if amount > pool.total_fees_collected {
        Some(ErrorCode::InsufficientFunds)
    } else if amount > vault_balance {
        Some(ErrorCode::InsufficientFunds)
    } else {
        None
    }
}

/// Books a fee withdrawal: `amount` leaves the collected-fee ledger. The
/// host pays that amount from the vault to the admin after this succeeds.
pub fn withdraw_fees(
    pool: &mut Pool,
    caller: AccountId,
    amount: u64,
    vault_balance: u64,
    now: i64,
) -> (r: Result<(), ErrorCode>)
    requires
        old(pool).wf(),
        0 <= now,
    ensures
        final(pool).wf(),
        ({
            let err = withdraw_fees_error(*old(pool), caller, amount, vault_balance);
            match r {
                Ok(u) => err is None && *final(pool) == (Pool {
                    total_fees_collected: (old(pool).total_fees_collected - amount) as u64,
                    updated_at: now,
                    ..*old(pool)
                }),
                Err(e) => err == Some(e) && *final(pool) == *old(pool),
            }
        }),
{
    if caller != pool.admin {
        return Err(ErrorCode::Unauthorized);
    }
    if amount > pool.total_fees_collected {
        return Err(ErrorCode::InsufficientFunds);
    }
    if amount > vault_balance {
        return Err(ErrorCode::InsufficientFunds);
    }
    pool.total_fees_collected = pool.total_fees_collected - amount;
    pool.updated_at = now;
    Ok(())
}

} // verus!
