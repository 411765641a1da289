use vstd::prelude::*;

verus! {

/// Why an operation was refused. A handler that returns one of these leaves
/// every piece of state exactly as it found it, matching the host's
/// all-or-nothing commit: no partial application of an operation is ever
/// visible.
#[derive(Clone, Copy, Debug, PartialEq, Eq, Structural)]
pub enum ErrorCode {
    /// The amount must be greater than zero.
    ZeroAmount,
    /// The amount is below the pool's minimum stake.
    AmountTooSmall,
    /// The amount is above the pool's maximum stake.
    AmountTooLarge,
    /// The commitment period is outside the pool's bounds.
    InvalidCommitment,
    /// The pool is not active.
    PoolInactive,
    /// The pool is paused.
    PoolPaused,
    /// A checked arithmetic operation overflowed or underflowed.
    ArithmeticOverflow,
    /// The accrued yield is zero.
    NoYieldsToClaim,
    /// The committed days have not elapsed yet.
    CommitmentNotMet,
    /// The user has no active stake.
    NoStake,
    /// The caller is not authorized for this operation.
    Unauthorized,
    /// The APY is outside the allowed bounds.
    InvalidApy,
    /// The deposit fee is outside the allowed bounds.
    InvalidFee,
    /// A pool limit fails its validation rule.
    InvalidLimit,
    /// The vault or the collected fees cannot cover the payout.
    InsufficientFunds,
    /// The user's total deposit would exceed the per-user cap.
    UserLimitExceeded,
    /// The pool's total stake would exceed the pool-wide cap.
    PoolLimitExceeded,
    /// The oracle price is older than the staleness threshold.
    StalePriceData,
    /// The oracle price deviates too far from the reference.
    PriceDeviationTooHigh,
    /// The circuit breaker threshold was crossed.
    CircuitBreakerTriggered,
    /// The oracle account or its reported price is invalid.
    InvalidOracle,
    /// A pending governance action already exists.
    PendingActionExists,
    /// There is no pending governance action.
    NoPendingAction,
    /// This signer already signed the pending action.
    AlreadySigned,
    /// The timelock has not expired yet.
    TimelockNotExpired,
    /// Fewer signatures were collected than the threshold requires.
    InsufficientSignatures,
    /// The pending action's type cannot be executed through this flow.
    InvalidAction,
    /// The signer set is already at its maximum size.
    TooManySigners,
    /// This signer is already in the signer set.
    SignerAlreadyExists,
    /// The threshold must be at least one and at most the signer count.
    InvalidThreshold,
    /// A guarded operation was entered while the reentrancy flag was set.
    ReentrancyDetected,
    /// Too many attempts in the window, or the cooldown has not elapsed.
    RateLimitExceeded,
    /// The net amount falls short of the slippage-protected minimum.
    SlippageExceeded,
    /// The transaction deadline has passed.
    TransactionExpired,
    /// A large operation came too soon after the previous one.
    MevProtectionActive,
    /// The rolling rebalance period has not elapsed yet.
    RebalanceNotDue,
    /// The rebalance score buffer is at capacity.
    ScoreBufferFull,
}

} // verus!
