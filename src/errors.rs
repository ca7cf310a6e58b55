use vstd::prelude::*;

verus! {

/// Failures of the pool engine.
#[derive(Clone, Copy, Debug, PartialEq, Eq, Structural)]
pub enum AmmError {
    InvalidAmount,
    SlippageExceeded,
    InsufficientLiquidity,
    PoolAlreadyInitialized,
    InvalidFeeRate,
    MathOverflow,
    InvalidTokenMint,
    Unauthorized,
    InvalidPoolState,
    IdenticalMints,
}

/// Failures of the proposal engine.
#[derive(Clone, Copy, Debug, PartialEq, Eq, Structural)]
pub enum GovernanceError {
    InvalidUtf8,
    VotingLimitReached,
    AlreadyVoted,
    VotingNotStarted,
    VotingExpired,
    VotingNotFinished,
    InvalidProposalStatus,
    VotingCountOverflow,
    UnauthorizedCreator,
    InvalidVotesNeeded,
    InvalidVotingPeriod,
    VotingPeriodTooLong,
}

} // verus!
