//! The multisig timelocked governance flow: a signer proposes one admin
//! action, other signers add their approval one by one, and once the
//! timelock has run out and enough distinct signatures are collected the
//! action executes against the pool and is cleared. Only one action can be
//! pending at a time. Signer-set management is admin-gated and separate
//! from the proposal flow.

use vstd::prelude::*;

use crate::errors::ErrorCode;
use crate::state::AccountId;
use crate::state::ActionParameters;
use crate::state::ActionType;
use crate::state::MAX_MULTISIG_SIGNERS;
use crate::state::PendingAction;
use crate::state::Pool;
use crate::state::contains_id;

verus! {

/// Why a proposal refuses, if it does: the proposer must be an authorized
/// signer, no other action may be pending, and the execution time must fit
/// the clock's type.
pub open spec fn propose_error(p: Pool, proposer: AccountId, now: i64) -> Option<ErrorCode> {
    if !p.multisig_signers@.contains(proposer) {
        Some(ErrorCode::Unauthorized)
    } else if p.pending_admin_action is Some {
        Some(ErrorCode::PendingActionExists)
    } else if now + p.action_timelock_delay > i64::MAX {
        Some(ErrorCode::ArithmeticOverflow)
    } else {
        None
    }
}

/// Opens the timelock on a new admin action. The proposer's signature is
/// the first one collected; the action becomes executable once the pool's
/// timelock delay has passed.
pub fn propose_admin_action(
    pool: &mut Pool,
    proposer: AccountId,
    action_type: ActionType,
    parameters: ActionParameters,
    now: i64,
) -> (r: Result<(), ErrorCode>)
    requires
        old(pool).wf(),
        0 <= now,
    ensures
        final(pool).wf(),
        ({
            let err = propose_error(*old(pool), proposer, now);
            let p0 = *old(pool);
            let p1 = *final(pool);
            match r {
                Ok(u) => err is None && (p1.pending_admin_action matches Some(a) && a.action_type
                    == action_type && a.proposed_by == proposer && a.signatures@ =~= seq![proposer]
                    && a.proposed_at == now && a.executable_at == now + p0.action_timelock_delay
                    && a.parameters == parameters) && p1 == (Pool {
                    pending_admin_action: p1.pending_admin_action,
                    updated_at: now,
                    ..p0
                }),
                Err(e) => err == Some(e) && *final(pool) == *old(pool),
            }
        }),
{
    if !contains_id(&pool.multisig_signers, proposer) {
        return Err(ErrorCode::Unauthorized);
    }
    if pool.pending_admin_action.is_some() {
        return Err(ErrorCode::PendingActionExists);
    }
    let executable_at = match now.checked_add_unsigned(pool.action_timelock_delay) {
        Some(t) => t,
        None => {
            return Err(ErrorCode::ArithmeticOverflow);
        },
    };
    let mut signatures: Vec<AccountId> = Vec::new();
    signatures.push(proposer);
    proof {
        assert(signatures@ =~= seq![proposer]);
    }
    pool.pending_admin_action = Some(
        PendingAction {
            action_type,
            proposed_by: proposer,
            signatures,
            proposed_at: now,
            executable_at,
            parameters,
        },
    );
    pool.updated_at = now;
    Ok(())
}

/// Why a signature refuses, if it does: the signer must be authorized, an
/// action must be pending, and the signer must not have signed it yet.
pub open spec fn sign_error(p: Pool, signer: AccountId) -> Option<ErrorCode> {
    if !p.multisig_signers@.contains(signer) {
        Some(ErrorCode::Unauthorized)
    } else if p.pending_admin_action is None {
        Some(ErrorCode::NoPendingAction)
    } else if p.pending_admin_action->Some_0.signatures@.contains(signer) {
        Some(ErrorCode::AlreadySigned)
    } else {
        None
    }
}

/// Adds one signer's approval to the pending action. The signature list is
/// append-only and never records the same signer twice: a second signature
/// by the same signer fails with `AlreadySigned`.
pub fn sign_admin_action(pool: &mut Pool, signer: AccountId) -> (r: Result<(), ErrorCode>)
    requires
        old(pool).wf(),
    ensures
        final(pool).wf(),
        ({
            let err = sign_error(*old(pool), signer);
            let p0 = *old(pool);
            let p1 = *final(pool);
            match r {
                Ok(u) => err is None && (p0.pending_admin_action matches Some(a0) && (
                p1.pending_admin_action matches Some(a1) && a1 == (PendingAction {
                    signatures: a1.signatures,
                    ..a0
                }) && a1.signatures@ == a0.signatures@.push(signer))) && p1 == (Pool {
                    pending_admin_action: p1.pending_admin_action,
                    ..p0
                }),
                Err(e) => err == Some(e) && *final(pool) == *old(pool),
            }
        }),
{
    if !contains_id(&pool.multisig_signers, signer) {
        return Err(ErrorCode::Unauthorized);
    }
    match &mut pool.pending_admin_action {
        Some(action) => {
            if contains_id(&action.signatures, signer) {
                return Err(ErrorCode::AlreadySigned);
            }
            action.signatures.push(signer);
            Ok(())
        },
        None => Err(ErrorCode::NoPendingAction),
    }
}

/// Law: signing the same pending action twice fails. If one signature by
/// `signer` was just recorded — the signature list grew by exactly that
/// signer — then a second attempt by the same signer on the same action is
/// refused with `AlreadySigned`.
pub proof fn lemma_sign_twice_fails(p1: Pool, p2: Pool, signer: AccountId)
    requires
        sign_error(p1, signer) is None,
        p2.multisig_signers@ == p1.multisig_signers@,
        p2.pending_admin_action matches Some(a1) && (p1.pending_admin_action matches Some(a0)
            && a1.signatures@ == a0.signatures@.push(signer)),
    ensures
        sign_error(p2, signer) == Some(ErrorCode::AlreadySigned),
{
    let a0 = p1.pending_admin_action->Some_0;
    let a1 = p2.pending_admin_action->Some_0;
    assert(a1.signatures@[a0.signatures@.len() as int] == signer);
    assert(a1.signatures@.contains(signer));
}

/// Why an execution refuses, if it does: an action must be pending, its
/// timelock must have run out, the signatures collected must reach the
/// pool's threshold, and the carried parameter must sit within its bound —
/// an APY within the configured maximum, a fee of at most 10%. Withdrawal
/// and limit changes do not run through this flow.
pub open spec fn execute_error(p: Pool, now: i64) -> Option<ErrorCode> {
    match p.pending_admin_action {
        None => Some(ErrorCode::NoPendingAction),
        Some(a) => {
            if now < a.executable_at {
                Some(ErrorCode::TimelockNotExpired)
            } else if a.signatures@.len() < p.multisig_threshold as int {
                Some(ErrorCode::InsufficientSignatures)
            } else {
                match a.action_type {
                    ActionType::UpdateApy => {
                        if a.parameters.new_apy matches Some(v) && v > p.max_apy {
                            Some(ErrorCode::InvalidApy)
                        } else {
                            None
                        }
                    },
                    ActionType::UpdateFee => {
                        if a.parameters.new_fee matches Some(v) && v > 1000 {
                            Some(ErrorCode::InvalidFee)
                        } else {
                            None
                        }
                    },
                    ActionType::EmergencyPause => None,
                    ActionType::EmergencyUnpause => None,
                    ActionType::WithdrawFees => Some(ErrorCode::InvalidAction),
                    ActionType::UpdateLimits => Some(ErrorCode::InvalidAction),
                }
            }
        },
    }
}

/// The pool after a successful execution: the carried parameter is applied
/// — a missing parameter leaves the field as it was — the pending action is
/// cleared, and the update is stamped.
pub open spec fn execute_apply(p: Pool, now: i64) -> Pool {
    let a = p.pending_admin_action->Some_0;
    match a.action_type {
        ActionType::UpdateApy => (Pool {
            apy: if a.parameters.new_apy is Some {
                a.parameters.new_apy->Some_0
            } else {
                p.apy
            },
            pending_admin_action: None,
            updated_at: now,
            ..p
        }),
        ActionType::UpdateFee => (Pool {
            deposit_fee: if a.parameters.new_fee is Some {
                a.parameters.new_fee->Some_0
            } else {
                p.deposit_fee
            },
            pending_admin_action: None,
            updated_at: now,
            ..p
        }),
        ActionType::EmergencyPause => (Pool {
            is_paused: true,
            emergency_pause_reason: if a.parameters.pause_reason is Some {
                a.parameters.pause_reason
            } else {
                p.emergency_pause_reason
            },
            pending_admin_action: None,
            updated_at: now,
            ..p
        }),
        ActionType::EmergencyUnpause => (Pool {
            is_paused: false,
            emergency_pause_reason: None,
            pending_admin_action: None,
            updated_at: now,
            ..p
        }),
        ActionType::WithdrawFees => p,
        ActionType::UpdateLimits => p,
    }
}

/// Executes the pending action once its timelock has run out and enough
/// signatures were collected, then clears it. On any error — including a
/// timelock still running or missing signatures — the action stays pending
/// and the pool is untouched.
pub fn execute_admin_action(pool: &mut Pool, now: i64) -> (r: Result<(), ErrorCode>)
    requires
        old(pool).wf(),
        0 <= now,
    ensures
        final(pool).wf(),
        ({
            let err = execute_error(*old(pool), now);
            match r {
                Ok(u) => err is None && *final(pool) == execute_apply(*old(pool), now),
                Err(e) => err == Some(e) && *final(pool) == *old(pool),
            }
        }),
{
    match &pool.pending_admin_action {
        None => {
            return Err(ErrorCode::NoPendingAction);
        },
        Some(action) => {
            if now < action.executable_at {
                return Err(ErrorCode::TimelockNotExpired);
            }
            if (action.signatures.len() as u64) < (pool.multisig_threshold as u64) {
                return Err(ErrorCode::InsufficientSignatures);
            }
            match action.action_type {
                ActionType::UpdateApy => {
                    match action.parameters.new_apy {
                        Some(v) => {
                            if v > pool.max_apy {
                                return Err(ErrorCode::InvalidApy);
                            }
                        },
                        None => {},
                    }
                },
                ActionType::UpdateFee => {
                    match action.parameters.new_fee {
                        Some(v) => {
                            if v > 1000 {
                                return Err(ErrorCode::InvalidFee);
                            }
                        },
                        None => {},
                    }
                },
                ActionType::EmergencyPause => {},
                ActionType::EmergencyUnpause => {},
                ActionType::WithdrawFees => {
                    return Err(ErrorCode::InvalidAction);
                },
                ActionType::UpdateLimits => {
                    return Err(ErrorCode::InvalidAction);
                },
            }
        },
    }
    let taken = pool.pending_admin_action.take();
    let action = match taken {
        Some(a) => a,
        None => {
            return Err(ErrorCode::NoPendingAction);
        },
    };
    match action.action_type {
        ActionType::UpdateApy => {
            match action.parameters.new_apy {
                Some(v) => {
                    pool.apy = v;
                },
                None => {},
            }
        },
        ActionType::UpdateFee => {
            match action.parameters.new_fee {
                Some(v) => {
                    pool.deposit_fee = v;
                },
                None => {},
            }
        },
        ActionType::EmergencyPause => {
            pool.is_paused = true;
            match action.parameters.pause_reason {
                Some(reason) => {
                    pool.emergency_pause_reason = Some(reason);
                },
                None => {},
            }
        },
        ActionType::EmergencyUnpause => {
            pool.is_paused = false;
            pool.emergency_pause_reason = None;
        },
        ActionType::WithdrawFees => {},
        ActionType::UpdateLimits => {},
    }
    pool.updated_at = now;
    Ok(())
}

/// Why adding a signer refuses, if it does: admin only, the set is capped
/// at ten, and a signer enters at most once.
pub open spec fn add_signer_error(p: Pool, caller: AccountId, new_signer: AccountId) -> Option<
    ErrorCode,
> {
    if caller != p.admin {
        Some(ErrorCode::Unauthorized)
    } else if p.multisig_signers@.len() >= MAX_MULTISIG_SIGNERS as int {
        Some(ErrorCode::TooManySigners)
    } else if p.multisig_signers@.contains(new_signer) {
        Some(ErrorCode::SignerAlreadyExists)
    } else {
        None
    }
}

/// Adds a distinct signer to the multisig set. Admin only.
pub fn add_multisig_signer(pool: &mut Pool, caller: AccountId, new_signer: AccountId) -> (r: Result<
    (),
    ErrorCode,
>)
    requires
        old(pool).wf(),
    ensures
        final(pool).wf(),
        ({
            let err = add_signer_error(*old(pool), caller, new_signer);
            match r {
                Ok(u) => err is None && final(pool).multisig_signers@ == old(
                    pool,
                ).multisig_signers@.push(new_signer) && *final(pool) == (Pool {
                    multisig_signers: final(pool).multisig_signers,
                    ..*old(pool)
                }),
                Err(e) => err == Some(e) && *final(pool) == *old(pool),
            }
        }),
{
    if caller != pool.admin {
        return Err(ErrorCode::Unauthorized);
    }
    if pool.multisig_signers.len() >= MAX_MULTISIG_SIGNERS {
        return Err(ErrorCode::TooManySigners);
    }
    if contains_id(&pool.multisig_signers, new_signer) {
        return Err(ErrorCode::SignerAlreadyExists);
    }
    pool.multisig_signers.push(new_signer);
    proof {
        let s0 = old(pool).multisig_signers@;
        let s1 = pool.multisig_signers@;
        assert forall|x: AccountId| s0.contains(x) implies s1.contains(x) by {
            let i = choose|i: int| 0 <= i < s0.len() && s0[i] == x;
            assert(s1[i] == x);
        }
    }
    Ok(())
}

/// Why a threshold update refuses, if it does: admin only, and the
/// threshold must be at least one and at most the signer count.
pub open spec fn update_threshold_error(p: Pool, caller: AccountId, new_threshold: u8) -> Option<
    ErrorCode,
> {
    if caller != p.admin {
        Some(ErrorCode::Unauthorized)
    } else if new_threshold == 0 {
        Some(ErrorCode::InvalidThreshold)
    } else if new_threshold as int > p.multisig_signers@.len() {
        Some(ErrorCode::InvalidThreshold)
    } else {
        None
    }
}

/// Sets how many signatures a pending action needs. Admin only.
pub fn update_multisig_threshold(pool: &mut Pool, caller: AccountId, new_threshold: u8) -> (r:
    Result<(), ErrorCode>)
    requires
        old(pool).wf(),
    ensures
        final(pool).wf(),
        ({
            let err = update_threshold_error(*old(pool), caller, new_threshold);
            match r {
                Ok(u) => err is None && *final(pool) == (Pool {
                    multisig_threshold: new_threshold,
                    ..*old(pool)
                }),
                Err(e) => err == Some(e) && *final(pool) == *old(pool),
            }
        }),
{
    if caller != pool.admin {
        return Err(ErrorCode::Unauthorized);
    }
    if new_threshold == 0 {
        return Err(ErrorCode::InvalidThreshold);
    }
    if (new_threshold as usize) > pool.multisig_signers.len() {
        return Err(ErrorCode::InvalidThreshold);
    }
    pool.multisig_threshold = new_threshold;
    Ok(())
}

} // verus!
