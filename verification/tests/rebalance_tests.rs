use defi_trust_fund::admin::initialize_pool;
use defi_trust_fund::errors::ErrorCode;
use defi_trust_fund::ledger::stake;
use defi_trust_fund::rebalance::{
    apply_tier, compute_score, finalize_rebalance, rebalance_tiers_batch, rebalance_user,
    trigger_rebalance, RebalanceOutcome, ScoreEntry, TempScores, TierAssignment,
};
use defi_trust_fund::state::{Pool, UserStake};

const SOL: u64 = 1_000_000_000;
const ADMIN: u64 = 1;
const T0: i64 = 1_700_000_000;
const DAY: i64 = 86_400;

fn fresh_pool() -> Pool {
    initialize_pool(ADMIN, 5000, 1, 365, 900, T0).unwrap().0
}

#[test]
fn score_formula_exact_values() {
    // No time staked: multiplier is 1.0, score is 5 per unit staked.
    assert_eq!(compute_score(100, 0), 500);
    // One day: 5*100 + 5*1 = 505.
    assert_eq!(compute_score(100, 1), 505);
    // One full year: multiplier 1.2 → floor((500 + 5*365) * 1.2).
    assert_eq!(compute_score(100, 365), (500 + 5 * 365) * 12000 / 10000);
    // Five years and beyond: multiplier capped at 2.0.
    let five_years = 5 * 365;
    assert_eq!(
        compute_score(100, five_years),
        (500 + 5 * five_years) * 2
    );
    assert_eq!(
        compute_score(100, 10 * 365),
        (500 + 5 * 10 * 365) * 2
    );
    // The score saturates instead of wrapping.
    assert_eq!(compute_score(u64::MAX, u64::MAX), u64::MAX);
}

#[test]
fn trigger_enforces_interval_and_admin() {
    let mut pool = fresh_pool();
    assert_eq!(
        trigger_rebalance(&mut pool, 42, T0 + 31 * DAY),
        Err(ErrorCode::Unauthorized)
    );
    assert_eq!(
        trigger_rebalance(&mut pool, ADMIN, T0 + 29 * DAY),
        Err(ErrorCode::RebalanceNotDue)
    );
    trigger_rebalance(&mut pool, ADMIN, T0 + 30 * DAY).unwrap();
    assert_eq!(pool.last_rebalance_timestamp, T0 + 30 * DAY);
    // A second cycle in the same rolling period is refused.
    assert_eq!(
        trigger_rebalance(&mut pool, ADMIN, T0 + 45 * DAY),
        Err(ErrorCode::RebalanceNotDue)
    );
}

fn staked_user(pool: &mut Pool, id: u64, amount: u64) -> UserStake {
    let mut user = UserStake::new(id);
    stake(pool, &mut user, id, amount, 30, 0, T0, T0, 1000).unwrap();
    user
}

#[test]
fn rebalance_user_buffers_active_scores() {
    let mut pool = fresh_pool();
    pool.min_stake_amount = 1;
    let mut user = staked_user(&mut pool, 7, SOL);
    let mut scores = TempScores::new();
    let outcome = rebalance_user(&mut pool, &mut user, &mut scores, T0 + 30 * DAY).unwrap();
    let expected = compute_score(user.amount, 30);
    assert_eq!(outcome, RebalanceOutcome::Scored { user: 7, score: expected });
    assert_eq!(scores.entries, vec![ScoreEntry { user: 7, score: expected }]);
    // The record itself is untouched.
    assert_eq!(user.amount, 995_000_000);
}

#[test]
fn rebalance_user_burns_inactive_records() {
    let mut pool = fresh_pool();
    pool.min_stake_amount = 1;
    // 1 lamport staked, same day: score 5*1 + 5*0 = 5, below the floor of 6.
    let mut user = staked_user(&mut pool, 7, 1);
    let staked_before = pool.total_staked;
    let mut scores = TempScores::new();
    let outcome = rebalance_user(&mut pool, &mut user, &mut scores, T0).unwrap();
    assert_eq!(outcome, RebalanceOutcome::Burned { user: 7, score: 5 });
    assert_eq!(user.amount, 0);
    assert_eq!(user.tier, 0);
    assert_eq!(pool.total_users, 0);
    assert_eq!(pool.total_staked, staked_before - 1);
    assert!(scores.entries.is_empty());
}

#[test]
fn rebalance_user_skips_empty_record_without_double_count() {
    // A record burned earlier in the cycle is not decremented again.
    let mut pool = fresh_pool();
    pool.total_users = 5;
    let mut user = UserStake::new(7);
    let mut scores = TempScores::new();
    let outcome = rebalance_user(&mut pool, &mut user, &mut scores, T0).unwrap();
    assert_eq!(outcome, RebalanceOutcome::AlreadyEmpty);
    assert_eq!(pool.total_users, 5);
}

#[test]
fn rebalance_user_respects_buffer_capacity() {
    let mut pool = fresh_pool();
    let mut user = staked_user(&mut pool, 7, SOL);
    let mut scores = TempScores::new();
    for i in 0..100 {
        scores.entries.push(ScoreEntry { user: i, score: 50 });
    }
    assert_eq!(
        rebalance_user(&mut pool, &mut user, &mut scores, T0 + 30 * DAY),
        Err(ErrorCode::ScoreBufferFull)
    );
    assert_eq!(scores.entries.len(), 100);
    assert_eq!(user.amount, 995_000_000);
}

#[test]
fn batch_processes_mixed_records_atomically() {
    let mut pool = fresh_pool();
    pool.min_stake_amount = 1;
    let mut users = vec![
        staked_user(&mut pool, 10, SOL),
        staked_user(&mut pool, 11, 1),
        UserStake::new(12),
        staked_user(&mut pool, 13, 2 * SOL),
    ];
    assert_eq!(pool.total_users, 3);
    let mut scores = TempScores::new();
    // Run the batch the same day: the 1-lamport record scores 5, below the
    // activity floor, while the funded records score far above it.
    let outcomes = rebalance_tiers_batch(&mut pool, &mut users, &mut scores, T0).unwrap();
    assert_eq!(outcomes.len(), 4);
    assert!(matches!(outcomes[0], RebalanceOutcome::Scored { user: 10, .. }));
    assert_eq!(outcomes[1], RebalanceOutcome::Burned { user: 11, score: 5 });
    assert_eq!(outcomes[2], RebalanceOutcome::AlreadyEmpty);
    assert!(matches!(outcomes[3], RebalanceOutcome::Scored { user: 13, .. }));
    // The burned record is zeroed, the pool shrank by it alone.
    assert_eq!(users[1].amount, 0);
    assert_eq!(pool.total_users, 2);
    // The buffer holds the two active users in order.
    assert_eq!(scores.entries.len(), 2);
    assert_eq!(scores.entries[0].user, 10);
    assert_eq!(scores.entries[1].user, 13);
}

#[test]
fn batch_with_overfull_buffer_changes_nothing() {
    let mut pool = fresh_pool();
    pool.min_stake_amount = 1;
    let mut users = vec![staked_user(&mut pool, 10, SOL)];
    let user_before = users[0].clone();
    let pool_before = pool.clone();
    let mut scores = TempScores::new();
    for i in 0..100 {
        scores.entries.push(ScoreEntry { user: i, score: 50 });
    }
    assert_eq!(
        rebalance_tiers_batch(&mut pool, &mut users, &mut scores, T0 + 30 * DAY),
        Err(ErrorCode::ScoreBufferFull)
    );
    assert_eq!(users[0], user_before);
    assert_eq!(pool, pool_before);
    assert_eq!(scores.entries.len(), 100);
}

#[test]
fn scenario_thirty_one_users_get_their_tiers() {
    // 31 buffered users with strictly descending scores: ranks 0–9 get
    // tier 3, ranks 10–29 tier 2, and the 31st user (rank 30) tier 1.
    let mut pool = fresh_pool();
    let mut scores = TempScores::new();
    for i in 0..31u64 {
        scores.entries.push(ScoreEntry { user: i, score: 10_000 - i });
    }
    let assignments = finalize_rebalance(&mut pool, &mut scores, T0 + 30 * DAY);
    assert_eq!(assignments.len(), 31);
    for (rank, a) in assignments.iter().enumerate() {
        assert_eq!(a.user, rank as u64);
        let expected_tier = if rank < 10 {
            3
        } else if rank < 30 {
            2
        } else {
            1
        };
        assert_eq!(a.tier, expected_tier);
    }
    // The buffer is cleared for the next cycle.
    assert!(scores.entries.is_empty());
}

#[test]
fn finalize_sorts_descending_with_stable_ties() {
    let mut pool = fresh_pool();
    let mut scores = TempScores::new();
    scores.entries.push(ScoreEntry { user: 5, score: 100 });
    scores.entries.push(ScoreEntry { user: 6, score: 300 });
    scores.entries.push(ScoreEntry { user: 7, score: 100 });
    scores.entries.push(ScoreEntry { user: 8, score: 200 });
    let assignments = finalize_rebalance(&mut pool, &mut scores, T0 + 30 * DAY);
    let order: Vec<u64> = assignments.iter().map(|a| a.user).collect();
    // Ties (users 5 and 7, both at 100) keep their insertion order.
    assert_eq!(order, vec![6, 8, 5, 7]);
    assert_eq!(
        assignments[0],
        TierAssignment { user: 6, score: 300, tier: 3 }
    );
}

#[test]
fn empty_batch_and_empty_finalize_do_nothing() {
    let mut pool = fresh_pool();
    let pool_before = pool.clone();
    let mut users: Vec<UserStake> = Vec::new();
    let mut scores = TempScores::new();
    let outcomes = rebalance_tiers_batch(&mut pool, &mut users, &mut scores, T0).unwrap();
    assert!(outcomes.is_empty());
    assert_eq!(pool, pool_before);
    let assignments = finalize_rebalance(&mut pool, &mut scores, T0);
    assert!(assignments.is_empty());
    assert_eq!(pool.updated_at, T0);
}

#[test]
fn apply_tier_updates_only_the_badge() {
    let mut user = UserStake::new(7);
    let before = user.clone();
    apply_tier(&mut user, &TierAssignment { user: 7, score: 50, tier: 2 }).unwrap();
    assert_eq!(user.tier, 2);
    assert_eq!(UserStake { tier: 0, ..user.clone() }, before);
    assert_eq!(
        apply_tier(&mut user, &TierAssignment { user: 7, score: 50, tier: 9 }),
        Err(ErrorCode::InvalidLimit)
    );
    assert_eq!(user.tier, 2);
}
