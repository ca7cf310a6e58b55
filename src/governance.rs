use vstd::prelude::*;
use vstd::utf8::valid_utf8;

use crate::address::Address;
use crate::errors::GovernanceError;

verus! {

/// The longest voting window a proposal may ask for, in seconds (seven days).
pub const MAX_VOTING_PERIOD: i64 = 604800;

/// Where a proposal stands in its lifecycle.
#[derive(Clone, Copy, Debug, PartialEq, Eq, Structural)]
pub enum ProposalStatus {
    Draft,
    Voting,
    Passed,
    Failed,
}

/// A vote-gated decision with a bounded voting window and a pass threshold.
#[derive(Clone, Copy, Debug)]
pub struct Proposal {
    pub id: u64,
    pub title: [u8; 32],
    pub description: [u8; 256],
    pub votes_needed_to_pass: u64,
    pub voting_start: i64,
    pub voting_period: i64,
    pub creator: Address,
    pub proposal_status: ProposalStatus,
    pub voting_count: u64,
    pub bump: u8,
}

/// The ballot slot of one voter on one proposal. The host keys it by the
/// pair, so each pair has exactly one slot; `voted` is set once and never
/// cleared.
#[derive(Clone, Copy, Debug)]
pub struct VoteRecord {
    pub voter: Address,
    pub proposal: Address,
    pub voted: bool,
    pub bump: u8,
}

/// The signer creating a proposal and the bump of the proposal's address.
#[derive(Clone, Copy, Debug)]
pub struct CreateProposal {
    pub creator: Address,
    pub proposal_bump: u8,
}

/// The signer asking to open the vote, and the proposal.
#[derive(Clone, Copy, Debug)]
pub struct StartVoting {
    pub creator: Address,
    pub proposal: Proposal,
}

/// A voter, the proposal (with its own address) and the voter's ballot slot.
#[derive(Clone, Copy, Debug)]
pub struct Vote {
    pub proposal: Proposal,
    pub proposal_key: Address,
    pub voter: Address,
    pub voter_record: VoteRecord,
    pub voter_record_bump: u8,
}

/// The signer asking to close the vote, and the proposal.
#[derive(Clone, Copy, Debug)]
pub struct FinalizeVoting {
    pub creator: Address,
    pub proposal: Proposal,
}

impl Proposal {
    /// The end of the voting window, in seconds.
    pub open spec fn voting_end(&self) -> int {
        self.voting_start + self.voting_period
    }

    /// What holds of every proposal that `process_create_proposal` made and
    /// the other steps have since moved along.
    pub open spec fn wf(&self) -> bool {
        &&& self.votes_needed_to_pass > 0
        &&& 0 < self.voting_period <= MAX_VOTING_PERIOD
        &&& valid_utf8(self.title@)
        &&& self.voting_count <= self.votes_needed_to_pass
        &&& self.proposal_status == ProposalStatus::Draft ==> self.voting_count == 0
            && self.voting_start == 0
    }
}

/// The proposal that creation writes, or why it is refused.
pub open spec fn create_proposal_result(
    ctx: CreateProposal,
    proposal_id: u64,
    title: [u8; 32],
    description: [u8; 256],
    votes_needed_to_pass: u64,
    voting_period: i64,
) -> Result<Proposal, GovernanceError> {
    if votes_needed_to_pass == 0 {
        Err(GovernanceError::InvalidVotesNeeded)
    } else if voting_period <= 0 {
        Err(GovernanceError::InvalidVotingPeriod)
    } else if voting_period > MAX_VOTING_PERIOD {
        Err(GovernanceError::VotingPeriodTooLong)
    } else if !valid_utf8(title@) {
        Err(GovernanceError::InvalidUtf8)
    } else {
        Ok(
            Proposal {
                id: proposal_id,
                title,
                description,
                votes_needed_to_pass,
                voting_start: 0,
                voting_period,
                creator: ctx.creator,
                proposal_status: ProposalStatus::Draft,
                voting_count: 0,
                bump: ctx.proposal_bump,
            },
        )
    }
}

/// The accounts after opening the vote at time `now`, or why it is refused.
pub open spec fn start_voting_result(ctx: StartVoting, now: i64) -> Result<StartVoting, GovernanceError> {
    if ctx.proposal.creator@ != ctx.creator@ {
        Err(GovernanceError::UnauthorizedCreator)
    } else if ctx.proposal.proposal_status != ProposalStatus::Draft {
        Err(GovernanceError::InvalidProposalStatus)
    } else {
        Ok(
            StartVoting {
                proposal: Proposal {
                    voting_start: now,
                    proposal_status: ProposalStatus::Voting,
                    ..ctx.proposal
                },
                ..ctx
            },
        )
    }
}

/// The accounts after casting a ballot at time `now`, or why it is refused.
/// A slot that already holds a ballot is refused before anything else, as the
/// host refuses to create it a second time.
pub open spec fn vote_result(ctx: Vote, now: i64) -> Result<Vote, GovernanceError> {
    let p = ctx.proposal;
    if ctx.voter_record.voted {
        Err(GovernanceError::AlreadyVoted)
    } else if p.proposal_status != ProposalStatus::Voting {
        Err(GovernanceError::InvalidProposalStatus)
    } else if now < p.voting_start {
        Err(GovernanceError::VotingNotStarted)
    } else if now > p.voting_end() {
        Err(GovernanceError::VotingExpired)
    } else if p.voting_count >= p.votes_needed_to_pass {
        Err(GovernanceError::VotingLimitReached)
    } else {
        Ok(
            Vote {
                proposal: Proposal { voting_count: (p.voting_count + 1) as u64, ..p },
                voter_record: VoteRecord {
                    voter: ctx.voter,
                    proposal: ctx.proposal_key,
                    voted: true,
                    bump: ctx.voter_record_bump,
                },
                ..ctx
            },
        )
    }
}

/// The status that closing the vote settles on.
pub open spec fn final_status(p: Proposal) -> ProposalStatus {
    if p.voting_count >= p.votes_needed_to_pass {
        ProposalStatus::Passed
    } else {
        ProposalStatus::Failed
    }
}

/// The accounts after closing the vote at time `now`, or why it is refused.
pub open spec fn finalize_voting_result(ctx: FinalizeVoting, now: i64) -> Result<FinalizeVoting, GovernanceError> {
    if ctx.proposal.creator@ != ctx.creator@ {
        Err(GovernanceError::UnauthorizedCreator)
    } else if ctx.proposal.proposal_status != ProposalStatus::Voting {
        Err(GovernanceError::InvalidProposalStatus)
    } else if now < ctx.proposal.voting_end() {
        Err(GovernanceError::VotingNotFinished)
    } else {
        Ok(
            FinalizeVoting {
                proposal: Proposal { proposal_status: final_status(ctx.proposal), ..ctx.proposal },
                ..ctx
            },
        )
    }
}

/// Relies on std::str::from_utf8: it accepts a byte sequence exactly when the
/// sequence is well-formed UTF-8.
#[verifier::external_body]
fn is_utf8(bytes: &[u8; 32]) -> (r: bool)
    ensures
        r == valid_utf8(bytes@),
{
    std::str::from_utf8(bytes).is_ok()
}

/// Creates a proposal in `Draft`, owned by the signer.
pub fn process_create_proposal(
    ctx: &CreateProposal,
    proposal_id: u64,
    title: [u8; 32],
    description: [u8; 256],
    votes_needed_to_pass: u64,
    voting_period: i64,
) -> (r: Result<Proposal, GovernanceError>)
    ensures
        r == create_proposal_result(
            *ctx,
            proposal_id,
            title,
            description,
            votes_needed_to_pass,
            voting_period,
        ),
        r matches Ok(p) ==> p.wf(),
{
    if votes_needed_to_pass == 0 {
        return Err(GovernanceError::InvalidVotesNeeded);
    }
    if voting_period <= 0 {
        return Err(GovernanceError::InvalidVotingPeriod);
    }
    if voting_period > MAX_VOTING_PERIOD {
        return Err(GovernanceError::VotingPeriodTooLong);
    }
    if !is_utf8(&title) {
        return Err(GovernanceError::InvalidUtf8);
    }
    Ok(
        Proposal {
            id: proposal_id,
            title,
            description,
            votes_needed_to_pass,
            voting_start: 0,
            voting_period,
            creator: ctx.creator,
            proposal_status: ProposalStatus::Draft,
            voting_count: 0,
            bump: ctx.proposal_bump,
        },
    )
}

/// Opens the vote on a `Draft` proposal at time `now`; only its creator may.
pub fn process_start_voting(ctx: &mut StartVoting, now: i64) -> (r: Result<(), GovernanceError>)
    ensures
        match start_voting_result(*old(ctx), now) {
            Ok(next) => r is Ok && *final(ctx) == next,
            Err(e) => r == Err::<(), GovernanceError>(e) && *final(ctx) == *old(ctx),
        },
        old(ctx).proposal.wf() ==> final(ctx).proposal.wf(),
{
    if ctx.proposal.creator != ctx.creator {
        return Err(GovernanceError::UnauthorizedCreator);
    }
    if ctx.proposal.proposal_status != ProposalStatus::Draft {
        return Err(GovernanceError::InvalidProposalStatus);
    }
    ctx.proposal.voting_start = now;
    ctx.proposal.proposal_status = ProposalStatus::Voting;
    Ok(())
}

/// Casts the voter's one ballot on a proposal that is open at time `now`.
pub fn process_vote(ctx: &mut Vote, now: i64) -> (r: Result<(), GovernanceError>)
    ensures
        match vote_result(*old(ctx), now) {
            Ok(next) => r is Ok && *final(ctx) == next,
            Err(e) => r == Err::<(), GovernanceError>(e) && *final(ctx) == *old(ctx),
        },
        old(ctx).proposal.wf() ==> final(ctx).proposal.wf(),
{
    if ctx.voter_record.voted {
        return Err(GovernanceError::AlreadyVoted);
    }
    if ctx.proposal.proposal_status != ProposalStatus::Voting {
        return Err(GovernanceError::InvalidProposalStatus);
    }
    if now < ctx.proposal.voting_start {
        return Err(GovernanceError::VotingNotStarted);
    }
    let end: i128 = ctx.proposal.voting_start as i128 + ctx.proposal.voting_period as i128;
    if now as i128 > end {
        return Err(GovernanceError::VotingExpired);
    }
    if ctx.proposal.voting_count >= ctx.proposal.votes_needed_to_pass {
        return Err(GovernanceError::VotingLimitReached);
    }
    let count = match ctx.proposal.voting_count.checked_add(1) {
        Some(c) => c,
        None => return Err(GovernanceError::VotingCountOverflow),
    };
    ctx.voter_record = VoteRecord {
        voter: ctx.voter,
        proposal: ctx.proposal_key,
        voted: true,
        bump: ctx.voter_record_bump,
    };
    ctx.proposal.voting_count = count;
    Ok(())
}

/// Closes the vote once its window has elapsed at time `now`: `Passed` if
/// the threshold was met, else `Failed`. Only the creator may.
pub fn process_finalize_voting(ctx: &mut FinalizeVoting, now: i64) -> (r: Result<(), GovernanceError>)
    ensures
        match finalize_voting_result(*old(ctx), now) {
            Ok(next) => r is Ok && *final(ctx) == next,
            Err(e) => r == Err::<(), GovernanceError>(e) && *final(ctx) == *old(ctx),
        },
        old(ctx).proposal.wf() ==> final(ctx).proposal.wf(),
{
    if ctx.proposal.creator != ctx.creator {
        return Err(GovernanceError::UnauthorizedCreator);
    }
    if ctx.proposal.proposal_status != ProposalStatus::Voting {
        return Err(GovernanceError::InvalidProposalStatus);
    }
    let end: i128 = ctx.proposal.voting_start as i128 + ctx.proposal.voting_period as i128;
    if (now as i128) < end {
        return Err(GovernanceError::VotingNotFinished);
    }
    if ctx.proposal.voting_count >= ctx.proposal.votes_needed_to_pass {
        ctx.proposal.proposal_status = ProposalStatus::Passed;
    } else {
        ctx.proposal.proposal_status = ProposalStatus::Failed;
    }
    Ok(())
}

} // verus!
