//! The tier scoring and rebalance engine. A cycle runs at most once per
//! rolling thirty days: the admin triggers it, batches of at most 25 users
//! are scored — inactive records are burned, active scores buffered — and
//! the finalize phase ranks the buffer descending (stable, ties by
//! insertion order), hands rank 0–9 tier three, rank 10–29 tier two and
//! everyone else tier one, and clears the buffer. The batch/finalize split
//! exists because the user set may exceed what one atomic operation can
//! process: this is a checkpointed bulk job.

use vstd::prelude::*;

use crate::errors::ErrorCode;
use crate::math::spec_days_staked;
use crate::math::SECONDS_PER_DAY;
use crate::state::AccountId;
use crate::state::Pool;
use crate::state::UserStake;

verus! {

/// Seconds of the rolling rebalance period (thirty days).
pub const REBALANCE_INTERVAL_SECONDS: i64 = 2592000;

/// Users one batch call may process.
pub const MAX_REBALANCE_BATCH: usize = 25;

/// Capacity of the per-cycle score buffer.
pub const MAX_SCORE_BUFFER: usize = 100;

/// Scores below this mark a record as inactive; its badges are burned.
pub const MIN_ACTIVE_SCORE: u64 = 6;

/// Ranks below this get tier three.
pub const TIER_THREE_RANKS: usize = 10;

/// Ranks below this (and not tier three) get tier two.
pub const TIER_TWO_RANKS: usize = 30;

/// One buffered (user, score) pair.
#[derive(Clone, Copy, Debug, PartialEq, Eq, Structural)]
pub struct ScoreEntry {
    pub user: AccountId,
    pub score: u64,
}

/// The ephemeral per-cycle score buffer, bounded by `MAX_SCORE_BUFFER` and
/// cleared when the cycle finalizes. Not durable state.
#[derive(Clone, Debug, PartialEq)]
pub struct TempScores {
    pub entries: Vec<ScoreEntry>,
}

/// One user's tier as the finalize phase assigned it.
#[derive(Clone, Copy, Debug, PartialEq, Eq, Structural)]
pub struct TierAssignment {
    pub user: AccountId,
    pub score: u64,
    pub tier: u8,
}

/// What one rebalance step decided for one user.
#[derive(Clone, Copy, Debug, PartialEq, Eq, Structural)]
pub enum RebalanceOutcome {
    /// The record was already empty; the step changes nothing, so a record
    /// burned earlier in the cycle is never counted twice.
    AlreadyEmpty,
    /// The score fell below the activity floor: the record was zeroed, its
    /// badges burned, and the pool aggregates shrank.
    Burned { user: AccountId, score: u64 },
    /// The score was buffered for the finalize phase.
    Scored { user: AccountId, score: u64 },
}

impl TempScores {
    /// The buffer never outgrows its capacity.
    pub open spec fn wf(&self) -> bool {
        self.entries@.len() <= MAX_SCORE_BUFFER as int
    }

    /// An empty buffer, as a cycle starts with.
    pub fn new() -> (r: TempScores)
        ensures
            r.entries@ =~= Seq::<ScoreEntry>::empty(),
            r.wf(),
    {
        TempScores { entries: Vec::new() }
    }
}

/// The loyalty multiplier in basis points: one plus a fifth per full year
/// staked, capped at two.
pub open spec fn spec_loyalty_multiplier_bps(days: u64) -> int {
    let years = days as int / 365;
    if 10000 + 2000 * years <= 20000 {
        10000 + 2000 * years
    } else {
        20000
    }
}

/// The base score: five points per unit staked and per day staked.
pub open spec fn spec_base_score(amount: u64, days: u64) -> int {
    5 * amount + 5 * days
}

/// The activity score: the base score scaled by the loyalty multiplier,
/// saturated at the type's maximum.
pub open spec fn spec_score(amount: u64, days: u64) -> int {
    let s = spec_base_score(amount, days) * spec_loyalty_multiplier_bps(days) / 10000;
    if s <= u64::MAX {
        s
    } else {
        u64::MAX as int
    }
}

/// A user's score at `now`, over the whole days since the stake began.
pub open spec fn spec_user_score(u: UserStake, now: i64) -> int {
    spec_score(u.amount, spec_days_staked(u.stake_timestamp, now) as u64)
}

/// Computes the activity score from the staked amount and the days staked.
pub fn compute_score(amount: u64, days: u64) -> (r: u64)
    ensures
        r == spec_score(amount, days),
{
    let years: u64 = days / 365;
    let multiplier_bps: u64 = if years >= 5 {
        20000
    } else {
        10000 + 2000 * years
    };
    let base: u128 = 5 * (amount as u128) + 5 * (days as u128);
    proof {
        assert(base * multiplier_bps <= (10 * (u64::MAX as int)) * 20000) by (nonlinear_arith)
            requires
                base <= 10 * (u64::MAX as int),
                multiplier_bps <= 20000,
        ;
    }
    let scaled: u128 = base * (multiplier_bps as u128) / 10000;
    if scaled > (u64::MAX as u128) {
        u64::MAX
    } else {
        scaled as u64
    }
}

/// Why triggering a cycle refuses, if it does: admin only, and the rolling
/// period must have elapsed since the last cycle.
pub open spec fn trigger_error(p: Pool, caller: AccountId, now: i64) -> Option<ErrorCode> {
    if caller != p.admin {
        Some(ErrorCode::Unauthorized)
    } else if now - p.last_rebalance_timestamp < REBALANCE_INTERVAL_SECONDS {
        Some(ErrorCode::RebalanceNotDue)
    } else {
        None
    }
}

/// Opens a rebalance cycle: allowed at most once per rolling thirty-day
/// period, admin only. Stamps the cycle's start.
pub fn trigger_rebalance(pool: &mut Pool, caller: AccountId, now: i64) -> (r: Result<
    (),
    ErrorCode,
>)
    requires
        old(pool).wf(),
        0 <= now,
    ensures
        final(pool).wf(),
        ({
            let err = trigger_error(*old(pool), caller, now);
            match r {
                Ok(u) => err is None && *final(pool) == (Pool {
                    last_rebalance_timestamp: now,
                    updated_at: now,
                    ..*old(pool)
                }),
                Err(e) => err == Some(e) && *final(pool) == *old(pool),
            }
        }),
{
    if caller != pool.admin {
        return Err(ErrorCode::Unauthorized);
    }
    if now - pool.last_rebalance_timestamp < REBALANCE_INTERVAL_SECONDS {
        return Err(ErrorCode::RebalanceNotDue);
    }
    pool.last_rebalance_timestamp = now;
    pool.updated_at = now;
    Ok(())
}

/// What the batch phase decides for one user: an empty record is skipped,
/// a score below the activity floor burns the record, any other score is
/// buffered.
pub open spec fn classify_user(u: UserStake, now: i64) -> RebalanceOutcome {
    if u.amount == 0 {
        RebalanceOutcome::AlreadyEmpty
    } else if spec_user_score(u, now) < MIN_ACTIVE_SCORE {
        RebalanceOutcome::Burned { user: u.user, score: spec_user_score(u, now) as u64 }
    } else {
        RebalanceOutcome::Scored { user: u.user, score: spec_user_score(u, now) as u64 }
    }
}

/// The record after its rebalance step: burned records are reset to the
/// empty state with no tier, others are untouched.
pub open spec fn rebalanced_user(u: UserStake, now: i64) -> UserStake {
    if classify_user(u, now) is Burned {
        UserStake {
            amount: 0,
            committed_days: 0,
            stake_timestamp: 0,
            last_claim_timestamp: 0,
            tier: 0,
            ..u
        }
    } else {
        u
    }
}

/// Why one rebalance step refuses, if it does: a burn must keep the pool
/// aggregates consistent, and a buffered score must fit the buffer.
pub open spec fn rebalance_user_error(
    p: Pool,
    u: UserStake,
    scores_len: int,
    now: i64,
) -> Option<ErrorCode> {
    match classify_user(u, now) {
        RebalanceOutcome::AlreadyEmpty => None,
        RebalanceOutcome::Burned { user, score } => {
            if p.total_users < 1 || p.total_staked < u.amount {
                Some(ErrorCode::ArithmeticOverflow)
            } else {
                None
            }
        },
        RebalanceOutcome::Scored { user, score } => {
            if scores_len >= MAX_SCORE_BUFFER as int {
                Some(ErrorCode::ScoreBufferFull)
            } else {
                None
            }
        },
    }
}

/// Runs one user's step of the batch phase, against that user's own
/// record: scores the record, burns it if inactive — shrinking the pool's
/// user count and total exactly once, since an already-empty record is
/// skipped — or buffers the score. On any error all three pieces of state
/// are untouched.
pub fn rebalance_user(pool: &mut Pool, user: &mut UserStake, scores: &mut TempScores, now: i64) -> (
    r: Result<RebalanceOutcome, ErrorCode>)
    requires
        old(pool).wf(),
        old(user).wf(),
        old(scores).wf(),
        0 <= now,
        old(user).stake_timestamp <= now,
    ensures
        final(pool).wf(),
        final(user).wf(),
        final(scores).wf(),
        ({
            let err = rebalance_user_error(
                *old(pool),
                *old(user),
                old(scores).entries@.len() as int,
                now,
            );
            let outcome = classify_user(*old(user), now);
            match r {
                Ok(o) => {
                    &&& err is None
                    &&& o == outcome
                    &&& *final(user) == rebalanced_user(*old(user), now)
                    &&& *final(pool) == (if outcome is Burned {
                        (Pool {
                            total_users: (old(pool).total_users - 1) as u64,
                            total_staked: (old(pool).total_staked - old(user).amount) as u64,
                            ..*old(pool)
                        })
                    } else {
                        *old(pool)
                    })
                    &&& final(scores).entries@ == (if outcome is Scored {
                        old(scores).entries@.push(
                            ScoreEntry {
                                user: old(user).user,
                                score: spec_user_score(*old(user), now) as u64,
                            },
                        )
                    } else {
                        old(scores).entries@
                    })
                },
                Err(e) => err == Some(e) && *final(pool) == *old(pool) && *final(user) == *old(user)
                    && *final(scores) == *old(scores),
            }
        }),
{
    if user.amount == 0 {
        return Ok(RebalanceOutcome::AlreadyEmpty);
    }
    let time_staked: i64 = now - user.stake_timestamp;
    let days_staked: u64 = (time_staked as u64) / SECONDS_PER_DAY;
    let score = compute_score(user.amount, days_staked);
    if score < MIN_ACTIVE_SCORE {
        if pool.total_users < 1 {
            return Err(ErrorCode::ArithmeticOverflow);
        }
        if pool.total_staked < user.amount {
            return Err(ErrorCode::ArithmeticOverflow);
        }
        pool.total_users = pool.total_users - 1;
        pool.total_staked = pool.total_staked - user.amount;
        let owner = user.user;
        user.amount = 0;
        user.committed_days = 0;
        user.stake_timestamp = 0;
        user.last_claim_timestamp = 0;
        user.tier = 0;
        Ok(RebalanceOutcome::Burned { user: owner, score })
    } else {
        if scores.entries.len() >= MAX_SCORE_BUFFER {
            return Err(ErrorCode::ScoreBufferFull);
        }
        scores.entries.push(ScoreEntry { user: user.user, score });
        Ok(RebalanceOutcome::Scored { user: user.user, score })
    }
}

/// Law: one rebalance step preserves the data-model invariant — a burned
/// record's principal leaves the pool total and its user leaves the count,
/// and any other outcome moves nothing — when record `i` of the ledger is
/// the one processed.
pub proof fn lemma_rebalance_user_preserves_ledger(
    p: Pool,
    users: Seq<UserStake>,
    i: int,
    now: i64,
)
    requires
        0 <= i < users.len(),
        crate::state::ledger_consistent(p, users),
        classify_user(users[i], now) is Burned ==> p.total_users >= 1 && p.total_staked >= users[
            i
        ].amount,
    ensures
        crate::state::ledger_consistent(
            (if classify_user(users[i], now) is Burned {
                (Pool {
                    total_users: (p.total_users - 1) as u64,
                    total_staked: (p.total_staked - users[i].amount) as u64,
                    ..p
                })
            } else {
                p
            }),
            users.update(i, rebalanced_user(users[i], now)),
        ),
{
    crate::state::lemma_ledger_update(users, i, rebalanced_user(users[i], now));
}

/// The entry a scored user contributes to the buffer.
pub open spec fn score_entry_of(u: UserStake, now: i64) -> ScoreEntry {
    ScoreEntry { user: u.user, score: spec_user_score(u, now) as u64 }
}

/// What the batch phase decides for each user of `users`, in order.
pub open spec fn batch_outcomes(users: Seq<UserStake>, now: i64) -> Seq<RebalanceOutcome> {
    users.map_values(|u: UserStake| classify_user(u, now))
}

/// How many records of `users` the batch at `now` burns.
pub open spec fn burn_count(users: Seq<UserStake>, now: i64) -> int
    decreases users.len(),
{
    if users.len() == 0 {
        0
    } else {
        burn_count(users.drop_last(), now) + (if classify_user(users.last(), now) is Burned {
            1int
        } else {
            0int
        })
    }
}

/// The staked amounts the batch at `now` burns, summed.
pub open spec fn burned_total(users: Seq<UserStake>, now: i64) -> int
    decreases users.len(),
{
    if users.len() == 0 {
        0
    } else {
        burned_total(users.drop_last(), now) + (if classify_user(users.last(), now) is Burned {
            users.last().amount as int
        } else {
            0int
        })
    }
}

/// The entries the batch at `now` buffers, in user order.
pub open spec fn scored_entries(users: Seq<UserStake>, now: i64) -> Seq<ScoreEntry>
    decreases users.len(),
{
    if users.len() == 0 {
        Seq::empty()
    } else {
        scored_entries(users.drop_last(), now) + (if classify_user(users.last(), now) is Scored {
            seq![score_entry_of(users.last(), now)]
        } else {
            Seq::empty()
        })
    }
}

/// Extending a prefix by one user extends each batch aggregate by that
/// user's contribution.
proof fn lemma_batch_step(s: Seq<UserStake>, now: i64, i: int)
    requires
        0 <= i < s.len(),
    ensures
        burn_count(s.take(i + 1), now) == burn_count(s.take(i), now) + (if classify_user(
            s[i],
            now,
        ) is Burned {
            1int
        } else {
            0int
        }),
        burned_total(s.take(i + 1), now) == burned_total(s.take(i), now) + (if classify_user(
            s[i],
            now,
        ) is Burned {
            s[i].amount as int
        } else {
            0int
        }),
        scored_entries(s.take(i + 1), now) == scored_entries(s.take(i), now) + (if classify_user(
            s[i],
            now,
        ) is Scored {
            seq![score_entry_of(s[i], now)]
        } else {
            Seq::<ScoreEntry>::empty()
        }),
{
    assert(s.take(i + 1).drop_last() =~= s.take(i));
    assert(s.take(i + 1).last() == s[i]);
}

/// The batch aggregates stay within the obvious bounds.
proof fn lemma_batch_bounds(s: Seq<UserStake>, now: i64)
    ensures
        0 <= burn_count(s, now) <= s.len(),
        0 <= burned_total(s, now) <= s.len() * (u64::MAX as int),
        scored_entries(s, now).len() <= s.len(),
    decreases s.len(),
{
    if s.len() > 0 {
        lemma_batch_bounds(s.drop_last(), now);
        assert((s.len() - 1) * (u64::MAX as int) + (u64::MAX as int) == s.len() * (
        u64::MAX as int)) by (nonlinear_arith);
    }
}

/// A prefix buffers no more entries than the whole batch.
proof fn lemma_scored_prefix(s: Seq<UserStake>, now: i64, j: int)
    requires
        0 <= j <= s.len(),
    ensures
        scored_entries(s.take(j), now).len() <= scored_entries(s, now).len(),
    decreases s.len(),
{
    if j < s.len() {
        assert(s.drop_last().take(j) =~= s.take(j));
        lemma_scored_prefix(s.drop_last(), now, j);
    } else {
        assert(s.take(j) =~= s);
    }
}

/// Why a whole batch refuses, if it does: the planned burns must keep the
/// pool aggregates consistent, and the buffered scores must fit the
/// buffer's capacity. The batch is atomic: it validates these before it
/// touches anything.
pub open spec fn batch_error(p: Pool, users: Seq<UserStake>, scores_len: int, now: i64) -> Option<
    ErrorCode,
> {
    if burn_count(users, now) > p.total_users {
        Some(ErrorCode::ArithmeticOverflow)
    } else if burned_total(users, now) > p.total_staked {
        Some(ErrorCode::ArithmeticOverflow)
    } else if scores_len + scored_entries(users, now).len() > MAX_SCORE_BUFFER as int {
        Some(ErrorCode::ScoreBufferFull)
    } else {
        None
    }
}

/// Classifies one record as the batch phase sees it, without touching it.
fn classify_exec(u: &UserStake, now: i64) -> (o: RebalanceOutcome)
    requires
        u.wf(),
        0 <= now,
        u.stake_timestamp <= now,
    ensures
        o == classify_user(*u, now),
{
    if u.amount == 0 {
        return RebalanceOutcome::AlreadyEmpty;
    }
    let time_staked: i64 = now - u.stake_timestamp;
    let days_staked: u64 = (time_staked as u64) / SECONDS_PER_DAY;
    let score = compute_score(u.amount, days_staked);
    if score < MIN_ACTIVE_SCORE {
        RebalanceOutcome::Burned { user: u.user, score }
    } else {
        RebalanceOutcome::Scored { user: u.user, score }
    }
}

/// Runs the batch phase over up to 25 user records, each its own account:
/// every record is classified first, the planned burns and buffered scores
/// are checked against the pool aggregates and the buffer capacity, and
/// only then is anything applied — so an error leaves all state untouched.
/// Burned records are zeroed, the pool shrinks by exactly the burned
/// records and amounts, and the buffered entries append in user order.
pub fn rebalance_tiers_batch(
    pool: &mut Pool,
    users: &mut Vec<UserStake>,
    scores: &mut TempScores,
    now: i64,
) -> (r: Result<Vec<RebalanceOutcome>, ErrorCode>)
    requires
        old(pool).wf(),
        old(scores).wf(),
        0 <= now,
        old(users)@.len() <= MAX_REBALANCE_BATCH as int,
        forall|i: int|
            0 <= i < old(users)@.len() ==> (#[trigger] old(users)@[i]).wf()
                && old(users)@[i].stake_timestamp <= now,
    ensures
        final(pool).wf(),
        final(scores).wf(),
        final(users)@.len() == old(users)@.len(),
        forall|i: int| 0 <= i < final(users)@.len() ==> (#[trigger] final(users)@[i]).wf(),
        ({
            let err = batch_error(*old(pool), old(users)@, old(scores).entries@.len() as int, now);
            match r {
                Ok(outs) => {
                    &&& err is None
                    &&& outs@ == batch_outcomes(old(users)@, now)
                    &&& forall|i: int|
                        0 <= i < old(users)@.len() ==> final(users)@[i] == rebalanced_user(
                            #[trigger] old(users)@[i],
                            now,
                        )
                    &&& *final(pool) == (Pool {
                        total_users: (old(pool).total_users - burn_count(old(users)@, now)) as u64,
                        total_staked: (old(pool).total_staked - burned_total(
                            old(users)@,
                            now,
                        )) as u64,
                        ..*old(pool)
                    })
                    &&& final(scores).entries@ == old(scores).entries@ + scored_entries(
                        old(users)@,
                        now,
                    )
                },
                Err(e) => {
                    &&& err == Some(e)
                    &&& *final(pool) == *old(pool)
                    &&& final(users)@ == old(users)@
                    &&& *final(scores) == *old(scores)
                },
            }
        }),
{
    let ghost users0 = users@;
    let ghost scores0 = scores.entries@;
    let n = users.len();

    let mut outcomes: Vec<RebalanceOutcome> = Vec::new();
    let mut burns: u64 = 0;
    let mut burned_amount: u128 = 0;
    let mut scored: usize = 0;
    let mut i: usize = 0;
    while i < n
        invariant
            users@ == users0,
            scores.entries@ == scores0,
            n == users0.len(),
            n <= MAX_REBALANCE_BATCH,
            forall|k: int|
                0 <= k < n ==> (#[trigger] users0[k]).wf() && users0[k].stake_timestamp <= now,
            0 <= now,
            0 <= i <= n,
            outcomes@.len() == i as int,
            forall|k: int| 0 <= k < i ==> outcomes@[k] == classify_user(#[trigger] users0[k], now),
            burns as int == burn_count(users0.take(i as int), now),
            burned_amount as int == burned_total(users0.take(i as int), now),
            scored as int == scored_entries(users0.take(i as int), now).len(),
        decreases n - i,
    {
        let outcome = classify_exec(&users[i], now);
        proof {
            lemma_batch_step(users0, now, i as int);
            lemma_batch_bounds(users0.take(i as int + 1), now);
        }
        match outcome {
            RebalanceOutcome::AlreadyEmpty => {},
            RebalanceOutcome::Burned { user: bu, score: bs } => {
                burns = burns + 1;
                burned_amount = burned_amount + (users[i].amount as u128);
            },
            RebalanceOutcome::Scored { user: su, score: sc } => {
                scored = scored + 1;
            },
        }
        outcomes.push(outcome);
        i += 1;
    }
    proof {
        assert(users0.take(n as int) =~= users0);
        lemma_batch_bounds(users0, now);
        assert forall|k: int| 0 <= k < users@.len() implies (#[trigger] users@[k]).wf() by {
            assert(users@[k] == users0[k]);
        }
    }

    if burns > pool.total_users {
        return Err(ErrorCode::ArithmeticOverflow);
    }
    if burned_amount > (pool.total_staked as u128) {
        return Err(ErrorCode::ArithmeticOverflow);
    }
    if scores.entries.len() + scored > MAX_SCORE_BUFFER {
        return Err(ErrorCode::ScoreBufferFull);
    }

    pool.total_users = pool.total_users - burns;
    pool.total_staked = pool.total_staked - (burned_amount as u64);
    let ghost pool_mid = *pool;

    let mut j: usize = 0;
    while j < n
        invariant
            *pool == pool_mid,
            n == users0.len(),
            users@.len() == n as int,
            forall|k: int|
                0 <= k < n ==> (#[trigger] users0[k]).wf() && users0[k].stake_timestamp <= now,
            0 <= now,
            0 <= j <= n,
            outcomes@.len() == n as int,
            forall|k: int| 0 <= k < n ==> outcomes@[k] == classify_user(#[trigger] users0[k], now),
            forall|k: int| 0 <= k < j ==> users@[k] == rebalanced_user(#[trigger] users0[k], now),
            forall|k: int| j <= k < n ==> #[trigger] users@[k] == users0[k],
            scores.entries@ == scores0 + scored_entries(users0.take(j as int), now),
            scores0.len() + scored_entries(users0, now).len() <= MAX_SCORE_BUFFER as int,
        decreases n - j,
    {
        proof {
            lemma_batch_step(users0, now, j as int);
            lemma_scored_prefix(users0, now, j as int + 1);
        }
        match outcomes[j] {
            RebalanceOutcome::AlreadyEmpty => {},
            RebalanceOutcome::Burned { user: bu, score: bs } => {
                users[j].amount = 0;
                users[j].committed_days = 0;
                users[j].stake_timestamp = 0;
                users[j].last_claim_timestamp = 0;
                users[j].tier = 0;
            },
            RebalanceOutcome::Scored { user: su, score: sc } => {
                scores.entries.push(ScoreEntry { user: su, score: sc });
            },
        }
        j += 1;
    }
    proof {
        assert(users0.take(n as int) =~= users0);
        assert(outcomes@ =~= batch_outcomes(users0, now));
        assert forall|k: int| 0 <= k < users@.len() implies (#[trigger] users@[k]).wf() by {
            assert(users@[k] == rebalanced_user(users0[k], now));
            assert(users0[k].wf());
        }
    }
    Ok(outcomes)
}

/// Buffer position `i` ranks before position `j`: a higher score, or the
/// same score and the earlier position — the stable tie-break.
pub open spec fn rank_before(entries: Seq<ScoreEntry>, i: int, j: int) -> bool {
    entries[i].score > entries[j].score || (entries[i].score == entries[j].score && i < j)
}

/// Some rank of `order` lists position `p`.
pub open spec fn ranks_position(order: Seq<int>, p: int) -> bool {
    exists|k: int| 0 <= k < order.len() && #[trigger] order[k] == p
}

/// `order` is the stable descending ranking of `entries`: it lists every
/// buffer position, higher scores first, ties by insertion order. For any
/// `entries` exactly one such `order` exists (`lemma_stable_ranking_unique`).
pub open spec fn is_stable_ranking(entries: Seq<ScoreEntry>, order: Seq<int>) -> bool {
    &&& order.len() == entries.len()
    &&& (forall|k: int| 0 <= k < order.len() ==> 0 <= #[trigger] order[k] < entries.len())
    &&& (forall|p: int| 0 <= p < entries.len() ==> #[trigger] ranks_position(order, p))
    &&& (forall|k1: int, k2: int|
        #![trigger order[k1], order[k2]]
        0 <= k1 < k2 < order.len() ==> rank_before(entries, order[k1], order[k2]))
}

/// The positions listed by a stable ranking are pairwise distinct: the
/// strict rank order forbids a repeat.
pub proof fn lemma_stable_ranking_distinct(entries: Seq<ScoreEntry>, order: Seq<int>)
    requires
        is_stable_ranking(entries, order),
    ensures
        forall|k1: int, k2: int|
            #![trigger order[k1], order[k2]]
            0 <= k1 < k2 < order.len() ==> order[k1] != order[k2],
{
}

/// Law: the stable ranking is unique — two rankings of the same entries
/// agree position by position, so the `exists` in `finalize_rebalance`'s
/// contract determines its output completely.
pub proof fn lemma_stable_ranking_unique(entries: Seq<ScoreEntry>, o1: Seq<int>, o2: Seq<int>)
    requires
        is_stable_ranking(entries, o1),
        is_stable_ranking(entries, o2),
    ensures
        o1 =~= o2,
{
    lemma_stable_ranking_prefix(entries, o1, o2, o1.len() as int);
}

/// The first `k` ranks of two stable rankings of the same entries agree.
proof fn lemma_stable_ranking_prefix(entries: Seq<ScoreEntry>, o1: Seq<int>, o2: Seq<int>, k: int)
    requires
        is_stable_ranking(entries, o1),
        is_stable_ranking(entries, o2),
        0 <= k <= o1.len(),
    ensures
        forall|j: int| 0 <= j < k ==> o1[j] == o2[j],
    decreases k,
{
    if k > 0 {
        lemma_stable_ranking_prefix(entries, o1, o2, k - 1);
        let kk = k - 1;
        if o1[kk] != o2[kk] {
            // The position o1 ranks at kk appears somewhere in o2 — but not
            // among the first kk ranks, which agree with o1's and are
            // distinct from o1[kk].
            assert(ranks_position(o2, o1[kk]));
            let m = choose|m: int| 0 <= m < o2.len() && o2[m] == o1[kk];
            lemma_stable_ranking_distinct(entries, o1);
            lemma_stable_ranking_distinct(entries, o2);
            if m < kk {
                assert(o1[m] == o2[m]);
                assert(o1[m] != o1[kk]);
                assert(false);
            }
            assert(m > kk);
            assert(rank_before(entries, o2[kk], o2[m]));
            // Symmetrically, the position o2 ranks at kk sits later in o1.
            assert(ranks_position(o1, o2[kk]));
            let m2 = choose|m2: int| 0 <= m2 < o1.len() && o1[m2] == o2[kk];
            if m2 < kk {
                assert(o2[m2] == o1[m2]);
                assert(o2[m2] != o2[kk]);
                assert(false);
            }
            assert(m2 > kk);
            assert(rank_before(entries, o1[kk], o1[m2]));
            // Each position ranks strictly before the other: impossible.
            assert(false);
        }
    }
}

/// The tier a descending rank earns: the top ten ranks get tier three, the
/// next twenty tier two, everyone else tier one.
pub open spec fn spec_tier_for_rank(rank: int) -> u8 {
    if rank < TIER_THREE_RANKS as int {
        3
    } else {
        if rank < TIER_TWO_RANKS as int {
            2
        } else {
            1
        }
    }
}

/// `out` lists `entries` in the order `order` gives, each with the tier its
/// rank earns.
pub open spec fn assignments_match(
    entries: Seq<ScoreEntry>,
    order: Seq<int>,
    out: Seq<TierAssignment>,
) -> bool {
    &&& out.len() == entries.len()
    &&& (forall|k: int|
        0 <= k < out.len() ==> #[trigger] out[k] == (TierAssignment {
            user: entries[order[k]].user,
            score: entries[order[k]].score,
            tier: spec_tier_for_rank(k),
        }))
}

/// A buffer entry annotated with its buffer position, so that the sort can
/// break ties stably.
#[derive(Clone, Copy, Debug, PartialEq, Eq, Structural)]
struct RankedEntry {
    pos: usize,
    user: AccountId,
    score: u64,
}

/// `a` sorts strictly before `b`: a higher score, or the same score and an
/// earlier buffer position.
spec fn entry_before(a: RankedEntry, b: RankedEntry) -> bool {
    a.score > b.score || (a.score == b.score && a.pos < b.pos)
}

/// The strict sort order as executable code.
fn comes_before(a: RankedEntry, b: RankedEntry) -> (r: bool)
    ensures
        r == entry_before(a, b),
{
    a.score > b.score || (a.score == b.score && a.pos < b.pos)
}

/// Insertion sort on annotated entries: the result holds exactly the input
/// elements (whose positions are pairwise distinct), in the strict order
/// `entry_before` — which makes the sort stable, since ties keep their
/// buffer order.
fn sort_ranked(v: &mut Vec<RankedEntry>)
    requires
        forall|k1: int, k2: int|
            #![trigger old(v)@[k1], old(v)@[k2]]
            0 <= k1 < k2 < old(v)@.len() ==> old(v)@[k1].pos != old(v)@[k2].pos,
    ensures
        final(v)@.len() == old(v)@.len(),
        forall|k: int| 0 <= k < final(v)@.len() ==> old(v)@.contains(#[trigger] final(v)@[k]),
        forall|k: int| 0 <= k < old(v)@.len() ==> final(v)@.contains(#[trigger] old(v)@[k]),
        forall|k1: int, k2: int|
            #![trigger final(v)@[k1], final(v)@[k2]]
            0 <= k1 < k2 < final(v)@.len() ==> entry_before(final(v)@[k1], final(v)@[k2]),
{
    let ghost v0 = v@;
    let n = v.len();
    proof {
        assert forall|k: int| 0 <= k < v@.len() implies v0.contains(#[trigger] v@[k]) by {
            assert(v@[k] == v0[k]);
        }
        assert forall|k: int| 0 <= k < v0.len() implies v@.contains(#[trigger] v0[k]) by {
            assert(v@[k] == v0[k]);
        }
    }
    if n <= 1 {
        return ;
    }
    let mut i: usize = 1;
    while i < n
        invariant
            1 <= i <= n,
            n == v@.len(),
            forall|k: int| 0 <= k < n ==> v0.contains(#[trigger] v@[k]),
            forall|k: int| 0 <= k < n ==> v@.contains(#[trigger] v0[k]),
            forall|k1: int, k2: int|
                #![trigger v@[k1], v@[k2]]
                0 <= k1 < k2 < n ==> v@[k1].pos != v@[k2].pos,
            forall|k1: int, k2: int|
                #![trigger v@[k1], v@[k2]]
                0 <= k1 < k2 < i ==> entry_before(v@[k1], v@[k2]),
        decreases n - i,
    {
        let mut j: usize = i;
        while j > 0 && comes_before(v[j], v[j - 1])
            invariant
                0 <= j <= i,
                i < n,
                n == v@.len(),
                forall|k: int| 0 <= k < n ==> v0.contains(#[trigger] v@[k]),
                forall|k1: int, k2: int|
                    #![trigger v@[k1], v@[k2]]
                    0 <= k1 < k2 < n ==> v@[k1].pos != v@[k2].pos,
                forall|k: int| 0 <= k < n ==> v@.contains(#[trigger] v0[k]),
                forall|k1: int, k2: int|
                    #![trigger v@[k1], v@[k2]]
                    0 <= k1 < k2 <= i && k2 != j ==> entry_before(v@[k1], v@[k2]),
            decreases j,
        {
            let ghost vpre = v@;
            let a = v[j - 1];
            let b = v[j];
            v[j - 1] = b;
            v[j] = a;
            proof {
                assert forall|k: int| 0 <= k < n implies v@.contains(#[trigger] v0[k]) by {
                    assert(vpre.contains(v0[k]));
                    let m = choose|m: int| 0 <= m < vpre.len() && vpre[m] == v0[k];
                    if m == j - 1 {
                        assert(v@[j as int] == v0[k]);
                    } else if m == j {
                        assert(v@[j as int - 1] == v0[k]);
                    } else {
                        assert(v@[m] == v0[k]);
                    }
                }
            }
            j -= 1;
        }
        proof {
            assert forall|k1: int, k2: int|
                #![trigger v@[k1], v@[k2]]
                0 <= k1 < k2 <= i implies entry_before(v@[k1], v@[k2]) by {
                if k2 == j as int {
                    assert(j > 0);
                    assert(!entry_before(v@[j as int], v@[j as int - 1]));
                    assert(v@[j as int - 1].pos != v@[j as int].pos);
                    assert(entry_before(v@[j as int - 1], v@[j as int]));
                    if k1 < j as int - 1 {
                        assert(entry_before(v@[k1], v@[j as int - 1]));
                    }
                }
            }
        }
        i += 1;
    }
}

/// Ends the cycle: ranks the buffered scores descending — stably, ties in
/// insertion order — assigns tier three to ranks 0–9, tier two to ranks
/// 10–29 and tier one below, clears the buffer and stamps the pool. The
/// host applies each returned assignment to its user's record.
pub fn finalize_rebalance(pool: &mut Pool, scores: &mut TempScores, now: i64) -> (r: Vec<
    TierAssignment,
>)
    requires
        old(pool).wf(),
        old(scores).wf(),
        0 <= now,
    ensures
        final(pool).wf(),
        final(scores).wf(),
        final(scores).entries@ =~= Seq::<ScoreEntry>::empty(),
        *final(pool) == (Pool { updated_at: now, ..*old(pool) }),
        exists|order: Seq<int>|
            is_stable_ranking(old(scores).entries@, order) && assignments_match(
                old(scores).entries@,
                order,
                r@,
            ),
{
    let ghost entries0 = scores.entries@;
    let n = scores.entries.len();

    let mut ranked: Vec<RankedEntry> = Vec::new();
    let mut i: usize = 0;
    while i < n
        invariant
            scores.entries@ == entries0,
            n == entries0.len(),
            0 <= i <= n,
            ranked@.len() == i as int,
            forall|k: int|
                0 <= k < i ==> #[trigger] ranked@[k] == (RankedEntry {
                    pos: k as usize,
                    user: entries0[k].user,
                    score: entries0[k].score,
                }),
        decreases n - i,
    {
        let e = scores.entries[i];
        ranked.push(RankedEntry { pos: i, user: e.user, score: e.score });
        i += 1;
    }

    let ghost ranked0 = ranked@;
    sort_ranked(&mut ranked);
    let ghost sorted = ranked@;
    proof {
        // Each sorted element still carries a faithful (position, entry)
        // pair, so its position indexes its own entry.
        assert forall|k: int|
            0 <= k < sorted.len() implies 0 <= #[trigger] sorted[k].pos < entries0.len()
            && sorted[k].user == entries0[sorted[k].pos as int].user && sorted[k].score
            == entries0[sorted[k].pos as int].score by {
            assert(ranked0.contains(sorted[k]));
            let m = choose|m: int| 0 <= m < ranked0.len() && ranked0[m] == sorted[k];
            assert(ranked0[m] == (RankedEntry {
                pos: m as usize,
                user: entries0[m].user,
                score: entries0[m].score,
            }));
        }
    }

    let ghost order = Seq::new(entries0.len(), |k: int| sorted[k].pos as int);

    let mut result: Vec<TierAssignment> = Vec::new();
    let mut k: usize = 0;
    while k < n
        invariant
            ranked@ == sorted,
            n == entries0.len(),
            sorted.len() == n as int,
            0 <= k <= n,
            result@.len() == k as int,
            forall|m: int|
                0 <= m < k ==> #[trigger] result@[m] == (TierAssignment {
                    user: sorted[m].user,
                    score: sorted[m].score,
                    tier: spec_tier_for_rank(m),
                }),
        decreases n - k,
    {
        let e = ranked[k];
        let tier: u8 = if k < TIER_THREE_RANKS {
            3
        } else {
            if k < TIER_TWO_RANKS {
                2
            } else {
                1
            }
        };
        result.push(TierAssignment { user: e.user, score: e.score, tier });
        k += 1;
    }

    scores.entries.clear();
    pool.updated_at = now;

    proof {
        // Every buffer position appears in the order: its annotated entry
        // survived the sort.
        assert forall|p: int| 0 <= p < entries0.len() implies ranks_position(order, p) by {
            assert(sorted.contains(ranked0[p]));
            let q = choose|q: int| 0 <= q < sorted.len() && sorted[q] == ranked0[p];
            assert(order[q] == p);
        }
        assert(is_stable_ranking(entries0, order));
        assert(assignments_match(entries0, order, result@));
    }
    result
}

/// Writes one finalize assignment onto its user's record, updating the
/// tier badge and nothing else.
pub fn apply_tier(user: &mut UserStake, assignment: &TierAssignment) -> (r: Result<(), ErrorCode>)
    requires
        old(user).wf(),
    ensures
        final(user).wf(),
        match r {
            Ok(u) => assignment.tier <= 3 && *final(user) == (UserStake {
                tier: assignment.tier,
                ..*old(user)
            }),
            Err(e) => assignment.tier > 3 && e == ErrorCode::InvalidLimit && *final(user) == *old(
                user,
            ),
        },
{
    if assignment.tier > 3 {
        return Err(ErrorCode::InvalidLimit);
    }
    user.tier = assignment.tier;
    Ok(())
}

} // verus!
