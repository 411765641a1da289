//! The structured events a handler emits on success. The host appends them
//! to its log; nothing in the core reads them back. Each carries the acting
//! identity, the amounts involved and the timestamp of the operation.

use vstd::prelude::*;

use crate::state::AccountId;

verus! {

/// The pool came to life.
#[derive(Clone, Copy, Debug, PartialEq, Eq, Structural)]
pub struct PoolInitializedEvent {
    pub admin: AccountId,
    pub timestamp: i64,
}

/// A deposit entered the ledger; `amount` is net of the fee.
#[derive(Clone, Copy, Debug, PartialEq, Eq, Structural)]
pub struct StakeEvent {
    pub user: AccountId,
    pub amount: u64,
    pub committed_days: u64,
    pub fee_amount: u64,
    pub timestamp: i64,
}

/// A stake left the ledger; `amount` is the principal that was staked.
#[derive(Clone, Copy, Debug, PartialEq, Eq, Structural)]
pub struct UnstakeEvent {
    pub user: AccountId,
    pub amount: u64,
    pub yields: u64,
    pub penalty: u64,
    pub timestamp: i64,
}

/// Accrued yields were paid out.
#[derive(Clone, Copy, Debug, PartialEq, Eq, Structural)]
pub struct ClaimEvent {
    pub user: AccountId,
    pub yields: u64,
    pub timestamp: i64,
}

/// The admin paused the pool.
#[derive(Clone, Copy, Debug, PartialEq, Eq, Structural)]
pub struct EmergencyPauseEvent {
    pub admin: AccountId,
    pub timestamp: i64,
}

/// The admin lifted the pause.
#[derive(Clone, Copy, Debug, PartialEq, Eq, Structural)]
pub struct EmergencyUnpauseEvent {
    pub admin: AccountId,
    pub timestamp: i64,
}

/// Which configuration field a parameter update touched.
#[derive(Clone, Copy, Debug, PartialEq, Eq, Structural)]
pub enum UpdatedParameter {
    Apy,
    DepositFee,
}

/// A configuration field changed value.
#[derive(Clone, Copy, Debug, PartialEq, Eq, Structural)]
pub struct ParameterUpdateEvent {
    pub admin: AccountId,
    pub parameter: UpdatedParameter,
    pub old_value: u64,
    pub new_value: u64,
    pub timestamp: i64,
}

} // verus!
