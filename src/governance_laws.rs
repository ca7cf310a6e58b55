//! Laws of the proposal engine, stated over the transitions that its steps
//! are proved to perform.
use vstd::prelude::*;

use crate::errors::GovernanceError;
use crate::governance::{finalize_voting_result, vote_result, FinalizeVoting, ProposalStatus, Vote};

verus! {

/// A voter's second ballot on the same proposal is refused with
/// `AlreadyVoted`, whenever it comes, and the first ballot counted once.
pub proof fn lemma_second_vote_rejected(ctx: Vote, first_at: i64, second_at: i64)
    requires
        vote_result(ctx, first_at) is Ok,
    ensures
        vote_result(ctx, first_at)->Ok_0.proposal.voting_count == ctx.proposal.voting_count + 1,
        vote_result(vote_result(ctx, first_at)->Ok_0, second_at) == Err::<Vote, GovernanceError>(
            GovernanceError::AlreadyVoted,
        ),
{
}

/// Closing the vote before its window has elapsed always fails, whatever the
/// tally; for the creator of a proposal under vote the failure is
/// `VotingNotFinished`.
pub proof fn lemma_finalize_before_end_rejected(ctx: FinalizeVoting, now: i64)
    requires
        now < ctx.proposal.voting_end(),
    ensures
        finalize_voting_result(ctx, now) is Err,
        ctx.creator@ == ctx.proposal.creator@ && ctx.proposal.proposal_status
            == ProposalStatus::Voting ==> finalize_voting_result(ctx, now) == Err::<
            FinalizeVoting,
            GovernanceError,
        >(GovernanceError::VotingNotFinished),
{
}

} // verus!
