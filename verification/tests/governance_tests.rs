use defi_trust_fund::admin::initialize_pool;
use defi_trust_fund::errors::ErrorCode;
use defi_trust_fund::governance::{
    add_multisig_signer, execute_admin_action, propose_admin_action, sign_admin_action,
    update_multisig_threshold,
};
use defi_trust_fund::state::{ActionParameters, ActionType, Pool};

const ADMIN: u64 = 1;
const BOB: u64 = 2;
const CARA: u64 = 3;
const MALLORY: u64 = 66;
const T0: i64 = 1_700_000_000;
const DAY: i64 = 86_400;

fn no_params() -> ActionParameters {
    ActionParameters {
        new_apy: None,
        new_fee: None,
        pause_reason: None,
        new_user_limit: None,
        new_pool_limit: None,
        withdrawal_amount: None,
    }
}

fn apy_params(apy: u64) -> ActionParameters {
    ActionParameters {
        new_apy: Some(apy),
        ..no_params()
    }
}

fn three_signer_pool() -> Pool {
    let mut pool = initialize_pool(ADMIN, 5000, 1, 365, 900, T0).unwrap().0;
    add_multisig_signer(&mut pool, ADMIN, BOB).unwrap();
    add_multisig_signer(&mut pool, ADMIN, CARA).unwrap();
    update_multisig_threshold(&mut pool, ADMIN, 2).unwrap();
    pool
}

#[test]
fn propose_requires_authorized_signer() {
    let mut pool = three_signer_pool();
    assert_eq!(
        propose_admin_action(&mut pool, MALLORY, ActionType::UpdateApy, apy_params(2000), T0),
        Err(ErrorCode::Unauthorized)
    );
}

#[test]
fn only_one_pending_action_at_a_time() {
    let mut pool = three_signer_pool();
    propose_admin_action(&mut pool, ADMIN, ActionType::UpdateApy, apy_params(2000), T0).unwrap();
    assert_eq!(
        propose_admin_action(&mut pool, BOB, ActionType::UpdateFee, no_params(), T0),
        Err(ErrorCode::PendingActionExists)
    );
}

#[test]
fn propose_records_proposer_signature_and_timelock() {
    let mut pool = three_signer_pool();
    propose_admin_action(&mut pool, BOB, ActionType::UpdateApy, apy_params(2000), T0).unwrap();
    let pending = pool.pending_admin_action.as_ref().unwrap();
    assert_eq!(pending.proposed_by, BOB);
    assert_eq!(pending.signatures, vec![BOB]);
    assert_eq!(pending.proposed_at, T0);
    // Default timelock delay: 24 hours.
    assert_eq!(pending.executable_at, T0 + DAY);
}

#[test]
fn sign_twice_fails_with_already_signed() {
    let mut pool = three_signer_pool();
    propose_admin_action(&mut pool, ADMIN, ActionType::UpdateApy, apy_params(2000), T0).unwrap();
    sign_admin_action(&mut pool, BOB).unwrap();
    assert_eq!(
        sign_admin_action(&mut pool, BOB),
        Err(ErrorCode::AlreadySigned)
    );
    // The proposer's own signature cannot be repeated either.
    assert_eq!(
        sign_admin_action(&mut pool, ADMIN),
        Err(ErrorCode::AlreadySigned)
    );
    // The signature set holds each signer at most once.
    let sigs = &pool.pending_admin_action.as_ref().unwrap().signatures;
    assert_eq!(sigs, &vec![ADMIN, BOB]);
}

#[test]
fn sign_requires_pending_action_and_authorization() {
    let mut pool = three_signer_pool();
    assert_eq!(
        sign_admin_action(&mut pool, BOB),
        Err(ErrorCode::NoPendingAction)
    );
    propose_admin_action(&mut pool, ADMIN, ActionType::UpdateApy, apy_params(2000), T0).unwrap();
    assert_eq!(
        sign_admin_action(&mut pool, MALLORY),
        Err(ErrorCode::Unauthorized)
    );
}

#[test]
fn scenario_timelock_and_threshold_gate_execution() {
    // Two of three signatures collected; executing before the timelock
    // elapses fails, and with only one signature after it fails too.
    let mut pool = three_signer_pool();
    propose_admin_action(&mut pool, ADMIN, ActionType::UpdateApy, apy_params(2000), T0).unwrap();
    sign_admin_action(&mut pool, BOB).unwrap();
    assert_eq!(
        execute_admin_action(&mut pool, T0 + DAY - 1),
        Err(ErrorCode::TimelockNotExpired)
    );

    let mut pool2 = three_signer_pool();
    propose_admin_action(&mut pool2, ADMIN, ActionType::UpdateApy, apy_params(2000), T0).unwrap();
    assert_eq!(
        execute_admin_action(&mut pool2, T0 + DAY),
        Err(ErrorCode::InsufficientSignatures)
    );

    // With both gates passed the action applies and clears.
    execute_admin_action(&mut pool, T0 + DAY).unwrap();
    assert_eq!(pool.apy, 2000);
    assert!(pool.pending_admin_action.is_none());
}

#[test]
fn execute_without_pending_action_fails() {
    let mut pool = three_signer_pool();
    assert_eq!(
        execute_admin_action(&mut pool, T0 + DAY),
        Err(ErrorCode::NoPendingAction)
    );
}

#[test]
fn execute_rejects_apy_above_configured_maximum() {
    let mut pool = three_signer_pool();
    propose_admin_action(&mut pool, ADMIN, ActionType::UpdateApy, apy_params(5001), T0).unwrap();
    sign_admin_action(&mut pool, BOB).unwrap();
    assert_eq!(
        execute_admin_action(&mut pool, T0 + DAY),
        Err(ErrorCode::InvalidApy)
    );
    // The action stays pending on failure.
    assert!(pool.pending_admin_action.is_some());
}

#[test]
fn execute_rejects_fee_above_ten_percent() {
    let mut pool = three_signer_pool();
    let params = ActionParameters {
        new_fee: Some(1001),
        ..no_params()
    };
    propose_admin_action(&mut pool, ADMIN, ActionType::UpdateFee, params, T0).unwrap();
    sign_admin_action(&mut pool, BOB).unwrap();
    assert_eq!(
        execute_admin_action(&mut pool, T0 + DAY),
        Err(ErrorCode::InvalidFee)
    );
}

#[test]
fn execute_fee_update_applies() {
    let mut pool = three_signer_pool();
    let params = ActionParameters {
        new_fee: Some(100),
        ..no_params()
    };
    propose_admin_action(&mut pool, ADMIN, ActionType::UpdateFee, params, T0).unwrap();
    sign_admin_action(&mut pool, CARA).unwrap();
    execute_admin_action(&mut pool, T0 + DAY).unwrap();
    assert_eq!(pool.deposit_fee, 100);
}

#[test]
fn execute_pause_and_unpause_through_governance() {
    let mut pool = three_signer_pool();
    let params = ActionParameters {
        pause_reason: Some("oracle divergence".to_string()),
        ..no_params()
    };
    propose_admin_action(&mut pool, ADMIN, ActionType::EmergencyPause, params, T0).unwrap();
    sign_admin_action(&mut pool, BOB).unwrap();
    execute_admin_action(&mut pool, T0 + DAY).unwrap();
    assert!(pool.is_paused);
    assert_eq!(
        pool.emergency_pause_reason,
        Some("oracle divergence".to_string())
    );

    propose_admin_action(&mut pool, ADMIN, ActionType::EmergencyUnpause, no_params(), T0 + DAY)
        .unwrap();
    sign_admin_action(&mut pool, BOB).unwrap();
    execute_admin_action(&mut pool, T0 + 2 * DAY).unwrap();
    assert!(!pool.is_paused);
    assert_eq!(pool.emergency_pause_reason, None);
}

#[test]
fn execute_rejects_action_types_outside_this_flow() {
    let mut pool = three_signer_pool();
    propose_admin_action(&mut pool, ADMIN, ActionType::WithdrawFees, no_params(), T0).unwrap();
    sign_admin_action(&mut pool, BOB).unwrap();
    assert_eq!(
        execute_admin_action(&mut pool, T0 + DAY),
        Err(ErrorCode::InvalidAction)
    );
}

#[test]
fn add_signer_rules() {
    let mut pool = initialize_pool(ADMIN, 5000, 1, 365, 900, T0).unwrap().0;
    assert_eq!(
        add_multisig_signer(&mut pool, BOB, CARA),
        Err(ErrorCode::Unauthorized)
    );
    add_multisig_signer(&mut pool, ADMIN, BOB).unwrap();
    assert_eq!(
        add_multisig_signer(&mut pool, ADMIN, BOB),
        Err(ErrorCode::SignerAlreadyExists)
    );
    // Fill the set to its cap of ten.
    for id in 100..108 {
        add_multisig_signer(&mut pool, ADMIN, id).unwrap();
    }
    assert_eq!(pool.multisig_signers.len(), 10);
    assert_eq!(
        add_multisig_signer(&mut pool, ADMIN, 999),
        Err(ErrorCode::TooManySigners)
    );
}

#[test]
fn threshold_rules() {
    let mut pool = three_signer_pool();
    assert_eq!(
        update_multisig_threshold(&mut pool, BOB, 1),
        Err(ErrorCode::Unauthorized)
    );
    assert_eq!(
        update_multisig_threshold(&mut pool, ADMIN, 0),
        Err(ErrorCode::InvalidThreshold)
    );
    assert_eq!(
        update_multisig_threshold(&mut pool, ADMIN, 4),
        Err(ErrorCode::InvalidThreshold)
    );
    update_multisig_threshold(&mut pool, ADMIN, 3).unwrap();
    assert_eq!(pool.multisig_threshold, 3);
}
