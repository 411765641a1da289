//! Persisted records of the program: the pool singleton with its
//! configuration, aggregates, oracle settings, multisig state and guard
//! parameters, and the per-user stake record. Identities are the host's
//! 32-byte account addresses; the core only compares them, so they appear
//! here as plain numeric ids.

use vstd::prelude::*;

verus! {

/// An account identity as the core sees it: opaque, only compared.
pub type AccountId = u64;

/// Lamports of one SOL.
pub const LAMPORTS_PER_SOL: u64 = 1000000000;

/// Length of a rate-limit window in seconds (one hour).
pub const RATE_LIMIT_WINDOW: i64 = 3600;

/// Claims allowed per window.
pub const MAX_CLAIMS_PER_HOUR: u64 = 10;

/// Stakes allowed per window.
pub const MAX_STAKES_PER_HOUR: u64 = 5;

/// Minimum seconds between consecutive attempts of the same class.
pub const COOLDOWN_PERIOD: i64 = 300;

/// Stakes at or above this size fall under MEV protection (10 SOL).
pub const LARGE_OPERATION_THRESHOLD: u64 = 10 * LAMPORTS_PER_SOL;

/// Upper bound on the multisig signer set.
pub const MAX_MULTISIG_SIGNERS: usize = 10;

/// The pool singleton: admin-controlled configuration, aggregate totals,
/// oracle settings, the multisig timelock state and the guard parameters.
#[derive(Clone, Debug, PartialEq)]
pub struct Pool {
    /// The admin identity set at initialization.
    pub admin: AccountId,
    /// Sum of all active stakes (net of fees).
    pub total_staked: u64,
    /// Count of users with an active stake.
    pub total_users: u64,
    /// Yearly yield rate in basis points.
    pub apy: u64,
    /// Deposit fee in basis points.
    pub deposit_fee: u64,
    /// Hard ceiling the admin set for the APY.
    pub max_apy: u64,
    /// Shortest commitment a stake may choose, in days.
    pub min_commitment_days: u64,
    /// Longest commitment a stake may choose, in days.
    pub max_commitment_days: u64,
    /// Whether the pool accepts operations at all.
    pub is_active: bool,
    /// Whether the pool is under an emergency pause.
    pub is_paused: bool,
    /// The reason recorded with the emergency pause, if one is in force.
    pub emergency_pause_reason: Option<String>,
    /// Lifetime sum of deposit fees withheld.
    pub total_fees_collected: u64,
    /// Lifetime sum of yields paid out.
    pub total_yields_paid: u64,
    /// When the last rebalance cycle was triggered.
    pub last_rebalance_timestamp: i64,
    /// Cap on one user's total active stake.
    pub max_deposit_per_user: u64,
    /// Cap on the pool's total active stake.
    pub max_total_staked: u64,
    /// Smallest stake a single operation may add.
    pub min_stake_amount: u64,
    /// Largest stake a single operation may add.
    pub max_stake_amount: u64,
    /// When the pool was initialized.
    pub created_at: i64,
    /// When the pool was last mutated.
    pub updated_at: i64,
    /// The price-feed account this pool trusts.
    pub sol_price_feed: AccountId,
    /// Maximum age of an oracle price, in seconds.
    pub price_staleness_threshold: u64,
    /// Maximum tolerated price deviation, in basis points.
    pub max_price_deviation: u64,
    /// Circuit-breaker trigger level, in basis points.
    pub circuit_breaker_threshold: u64,
    /// When a fresh oracle price was last recorded.
    pub last_price_update: i64,
    /// Signatures a pending action needs before it may execute.
    pub multisig_threshold: u8,
    /// The authorized signer set, at most ten distinct identities.
    pub multisig_signers: Vec<AccountId>,
    /// The one admin action waiting in the timelock, if any.
    pub pending_admin_action: Option<PendingAction>,
    /// Seconds between proposing an action and its earliest execution.
    pub action_timelock_delay: u64,
    /// Set while a guarded operation holds the pool across an external call.
    pub reentrancy_guard: bool,
    /// Largest tolerated slippage, in basis points.
    pub max_slippage_bps: u64,
    /// Seconds a submitted transaction stays valid.
    pub transaction_deadline: u64,
    /// Minimum slots between large operations.
    pub min_block_delay: u64,
    /// Slot of the last large operation.
    pub last_large_operation_slot: u64,
}

/// One user's stake record in the ledger.
#[derive(Clone, Debug, PartialEq)]
pub struct UserStake {
    /// The owner of this record.
    pub user: AccountId,
    /// The active staked amount, net of deposit fees.
    pub amount: u64,
    /// The commitment chosen at stake time, in days.
    pub committed_days: u64,
    /// When the active stake was (last) deposited.
    pub stake_timestamp: i64,
    /// When yields were last claimed.
    pub last_claim_timestamp: i64,
    /// Lifetime sum of net amounts staked.
    pub total_staked_lifetime: u64,
    /// Lifetime sum of committed days.
    pub total_days_staked: u64,
    /// Lifetime sum of yields claimed.
    pub total_yields_claimed: u64,
    /// When a claim was last attempted.
    pub last_claim_attempt: i64,
    /// Claims attempted in the current window.
    pub claim_attempts_count: u64,
    /// When a stake was last attempted.
    pub last_stake_attempt: i64,
    /// Stakes attempted in the current window.
    pub stake_attempts_count: u64,
    /// The loyalty tier the last rebalance assigned (0 = none, up to 3).
    pub tier: u8,
}

/// The kinds of admin action the multisig flow can carry.
#[derive(Clone, Copy, Debug, PartialEq, Eq, Structural)]
pub enum ActionType {
    UpdateApy,
    UpdateFee,
    EmergencyPause,
    EmergencyUnpause,
    WithdrawFees,
    UpdateLimits,
}

/// The parameter payload of a pending action; only the fields its type
/// reads are looked at.
#[derive(Clone, Debug, PartialEq)]
pub struct ActionParameters {
    pub new_apy: Option<u64>,
    pub new_fee: Option<u64>,
    pub pause_reason: Option<String>,
    pub new_user_limit: Option<u64>,
    pub new_pool_limit: Option<u64>,
    pub withdrawal_amount: Option<u64>,
}

/// An admin action waiting out its timelock while signatures accumulate.
#[derive(Clone, Debug, PartialEq)]
pub struct PendingAction {
    pub action_type: ActionType,
    pub proposed_by: AccountId,
    /// The distinct signers that approved so far, in signing order.
    pub signatures: Vec<AccountId>,
    pub proposed_at: i64,
    /// `proposed_at` plus the pool's timelock delay.
    pub executable_at: i64,
    pub parameters: ActionParameters,
}

/// No identity occurs twice.
pub open spec fn distinct_seq(s: Seq<AccountId>) -> bool {
    forall|i: int, j: int| 0 <= i < j < s.len() ==> s[i] != s[j]
}

/// Well-formedness of a pending action relative to the signer set: its
/// signatures are distinct authorized signers and its timestamps are valid.
pub open spec fn pending_action_wf(a: PendingAction, signers: Seq<AccountId>) -> bool {
    &&& distinct_seq(a.signatures@)
    &&& forall|i: int| 0 <= i < a.signatures@.len() ==> signers.contains(#[trigger] a.signatures@[i])
    &&& 0 <= a.proposed_at
    &&& 0 <= a.executable_at
}

impl Pool {
    /// The pool invariant: every configuration field sits within its
    /// admin-configured bound, timestamps are valid, and the multisig state
    /// is consistent. Established by `initialize_pool` and preserved by
    /// every handler.
    pub open spec fn wf(&self) -> bool {
        &&& self.apy <= self.max_apy
        &&& self.max_apy <= 5000
        &&& self.deposit_fee <= 1000
        &&& 1 <= self.min_commitment_days
        &&& self.min_commitment_days <= self.max_commitment_days
        &&& self.max_commitment_days <= 365
        &&& 1 <= self.min_stake_amount
        &&& self.min_stake_amount <= self.max_stake_amount
        &&& self.max_stake_amount <= self.max_deposit_per_user
        &&& self.total_staked <= self.max_total_staked
        &&& self.max_slippage_bps <= 10000
        &&& 0 <= self.created_at
        &&& 0 <= self.updated_at
        &&& 0 <= self.last_rebalance_timestamp
        &&& 0 <= self.last_price_update
        &&& 1 <= self.multisig_threshold
        &&& self.multisig_threshold as int <= self.multisig_signers@.len()
        &&& self.multisig_signers@.len() <= MAX_MULTISIG_SIGNERS as int
        &&& distinct_seq(self.multisig_signers@)
        &&& (self.pending_admin_action matches Some(a) ==> pending_action_wf(
            a,
            self.multisig_signers@,
        ))
    }
}

impl UserStake {
    /// The ledger invariant for one record: a fully unstaked record has its
    /// stake-derived fields reset, and all timestamps are valid.
    pub open spec fn wf(&self) -> bool {
        &&& self.amount == 0 ==> self.committed_days == 0 && self.stake_timestamp == 0
            && self.last_claim_timestamp == 0
        &&& 0 <= self.stake_timestamp
        &&& 0 <= self.last_claim_timestamp
        &&& 0 <= self.last_claim_attempt
        &&& 0 <= self.last_stake_attempt
        &&& self.tier <= 3
    }

    /// A fresh, empty record for `owner`, as the host creates it.
    pub fn new(owner: AccountId) -> (r: UserStake)
        ensures
            r.wf(),
            r == (UserStake {
                user: owner,
                amount: 0,
                committed_days: 0,
                stake_timestamp: 0,
                last_claim_timestamp: 0,
                total_staked_lifetime: 0,
                total_days_staked: 0,
                total_yields_claimed: 0,
                last_claim_attempt: 0,
                claim_attempts_count: 0,
                last_stake_attempt: 0,
                stake_attempts_count: 0,
                tier: 0,
            }),
    {
        UserStake {
            user: owner,
            amount: 0,
            committed_days: 0,
            stake_timestamp: 0,
            last_claim_timestamp: 0,
            total_staked_lifetime: 0,
            total_days_staked: 0,
            total_yields_claimed: 0,
            last_claim_attempt: 0,
            claim_attempts_count: 0,
            last_stake_attempt: 0,
            stake_attempts_count: 0,
            tier: 0,
        }
    }
}

/// Sum of the active stake amounts over a whole ledger of user records.
pub open spec fn sum_amounts(users: Seq<UserStake>) -> int
    decreases users.len(),
{
    if users.len() == 0 {
        0
    } else {
        sum_amounts(users.drop_last()) + users.last().amount
    }
}

/// How many records of a ledger hold an active stake.
pub open spec fn count_active(users: Seq<UserStake>) -> int
    decreases users.len(),
{
    if users.len() == 0 {
        0
    } else {
        count_active(users.drop_last()) + (if users.last().amount > 0 {
            1int
        } else {
            0int
        })
    }
}

/// The ledger invariant of the data model: the pool's aggregates agree
/// with the user records — the total staked is the sum of the active
/// amounts, and the user count is the number of active records.
pub open spec fn ledger_consistent(p: Pool, users: Seq<UserStake>) -> bool {
    &&& p.total_staked == sum_amounts(users)
    &&& p.total_users == count_active(users)
}

/// Replacing one record changes each ledger aggregate by exactly that
/// record's contribution.
pub proof fn lemma_ledger_update(users: Seq<UserStake>, i: int, u2: UserStake)
    requires
        0 <= i < users.len(),
    ensures
        sum_amounts(users.update(i, u2)) == sum_amounts(users) - users[i].amount + u2.amount,
        count_active(users.update(i, u2)) == count_active(users) - (if users[i].amount > 0 {
            1int
        } else {
            0int
        }) + (if u2.amount > 0 {
            1int
        } else {
            0int
        }),
    decreases users.len(),
{
    if i == users.len() - 1 {
        assert(users.update(i, u2).drop_last() =~= users.drop_last());
        assert(users.update(i, u2).last() == u2);
    } else {
        assert(users.update(i, u2).drop_last() =~= users.drop_last().update(i, u2));
        assert(users.update(i, u2).last() == users.last());
        lemma_ledger_update(users.drop_last(), i, u2);
    }
}

/// Whether `v` holds `x`, by a linear scan.
pub fn contains_id(v: &Vec<AccountId>, x: AccountId) -> (b: bool)
    ensures
        b == v@.contains(x),
{
    let mut i: usize = 0;
    while i < v.len()
        invariant
            0 <= i <= v@.len(),
            forall|k: int| 0 <= k < i ==> v@[k] != x,
        decreases v@.len() - i,
    {
        if v[i] == x {
            return true;
        }
        i += 1;
    }
    false
}

} // verus!
