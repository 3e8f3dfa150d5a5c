//! Governance: proposal lifecycle, stake-weighted tallying, and
//! parameter-change execution.

use vstd::prelude::*;

use crate::errors::ProtocolError;
use crate::staking::{StakingState, UserStakeInfo};
use crate::treasury::TreasuryState;

verus! {

/// Governance record, created once at bootstrap.
#[derive(Clone, Copy, Debug, PartialEq, Eq, Structural)]
pub struct GovernanceState {
    pub current_apy: u64,
    pub voting_period: i64,
    pub required_quorum: u64,
    pub proposal_count: u64,
}

/// The closed set of parameter-change payloads a proposal can carry.
#[derive(Clone, Copy, Debug, PartialEq, Eq, Structural)]
pub enum ProposalData {
    UpdateApy { new_apy: u64 },
    UpdateWithdrawalLimit { new_limit: u64 },
    UpdateVotingPeriod { new_period: i64 },
    UpdateQuorum { new_quorum: u64 },
}

/// One proposal's record.
#[derive(Clone, Debug)]
pub struct Proposal {
    pub proposal_id: u64,
    pub author: u64,
    pub creation_time: i64,
    pub end_time: i64,
    pub executed: bool,
    pub for_votes: u64,
    pub against_votes: u64,
    pub voters: Vec<u64>,
    pub data: ProposalData,
}

/// Whether a proposal passed: the combined weight reaches the quorum and
/// the weight in favour strictly outweighs the weight against.
pub open spec fn proposal_passed(p: Proposal, required_quorum: u64) -> bool {
    p.for_votes + p.against_votes >= required_quorum && p.for_votes > p.against_votes
}

impl Proposal {
    /// Whether the given voter id is already recorded on this proposal.
    pub fn has_voted(&self, voter: u64) -> (r: bool)
        ensures
            r == self.voters@.contains(voter),
    {
        let n = self.voters.len();
        let mut i: usize = 0;
        while i < n
            invariant
                0 <= i <= n,
                n == self.voters@.len(),
                forall|k: int| 0 <= k < i ==> self.voters@[k] != voter,
            decreases n - i,
        {
            if self.voters[i] == voter {
                return true;
            }
            i = i + 1;
        }
        false
    }

    /// Whether this proposal passed under the given quorum.
    pub fn has_passed(&self, required_quorum: u64) -> (r: bool)
        ensures
            r == proposal_passed(*self, required_quorum),
    {
        let total: u128 = (self.for_votes as u128) + (self.against_votes as u128);
        total >= required_quorum as u128 && self.for_votes > self.against_votes
    }
}

/// Whether a proposal creation is accepted: the voting deadline fits a
/// timestamp and the proposal counter has room.
pub open spec fn create_proposal_ok(gov: GovernanceState, now: i64) -> bool {
    &&& i64::MIN <= now + gov.voting_period <= i64::MAX
    &&& gov.proposal_count + 1 <= u64::MAX
}

/// Creates a proposal under the next sequential id.
///
/// The voting window opens at `now` and closes one full voting period
/// later; the tallies start at zero over an empty voter set. Rejects
/// only on arithmetic overflow, and then changes nothing.
pub fn create_proposal(gov: &mut GovernanceState, author: u64, data: ProposalData, now: i64) -> (r:
    Result<Proposal, ProtocolError>)
    ensures
        create_proposal_ok(*old(gov), now) ==> ({
            &&& r matches Ok(p)
            &&& (r matches Ok(p) ==> {
                &&& p.proposal_id == old(gov).proposal_count
                &&& p.author == author
                &&& p.creation_time == now
                &&& p.end_time == now + old(gov).voting_period
                &&& p.executed == false
                &&& p.for_votes == 0
                &&& p.against_votes == 0
                &&& p.voters@ == Seq::<u64>::empty()
                &&& p.data == data
            })
            &&& *final(gov) == (GovernanceState {
                proposal_count: (old(gov).proposal_count + 1) as u64,
                ..*old(gov)
            })
        }),
        !create_proposal_ok(*old(gov), now) ==> {
            &&& r matches Err(e) && e == ProtocolError::Overflow
            &&& *final(gov) == *old(gov)
        },
{
    let end_wide: i128 = (now as i128) + (gov.voting_period as i128);
    if end_wide > i64::MAX as i128 || end_wide < i64::MIN as i128 {
        return Err(ProtocolError::Overflow);
    }
    if gov.proposal_count == u64::MAX {
        return Err(ProtocolError::Overflow);
    }
    let proposal = Proposal {
        proposal_id: gov.proposal_count,
        author,
        creation_time: now,
        end_time: end_wide as i64,
        executed: false,
        for_votes: 0,
        against_votes: 0,
        voters: Vec::new(),
        data,
    };
    gov.proposal_count = gov.proposal_count + 1;
    proof {
        assert(proposal.voters@ =~= Seq::<u64>::empty());
    }
    Ok(proposal)
}

/// Whether a vote is accepted: the window still open, the voter not yet
/// recorded, and the touched tally still in range under the voter's
/// stake weight.
pub open spec fn vote_ok(p: Proposal, voter_id: u64, weight: u64, support: bool, now: i64) -> bool {
    &&& now < p.end_time
    &&& !p.voters@.contains(voter_id)
    &&& if support {
        p.for_votes + weight <= u64::MAX
    } else {
        p.against_votes + weight <= u64::MAX
    }
}

/// The kind a rejected vote fails with, by the first violated check.
pub open spec fn vote_err(p: Proposal, voter_id: u64, now: i64) -> ProtocolError {
    if now >= p.end_time {
        ProtocolError::VotingPeriodEnded
    } else if p.voters@.contains(voter_id) {
        ProtocolError::AlreadyVoted
    } else {
        ProtocolError::Overflow
    }
}

/// Casts a stake-weighted vote on an open proposal.
///
/// The voter's staked amount is added to exactly one tally and the voter
/// id is recorded, so the same id can never contribute again.
pub fn vote(proposal: &mut Proposal, voter: &UserStakeInfo, support: bool, now: i64) -> (r: Result<
    (),
    ProtocolError,
>)
    ensures
        vote_ok(*old(proposal), voter.owner, voter.staked_amount, support, now) ==> {
            &&& r == Ok::<(), ProtocolError>(())
            &&& final(proposal).for_votes == if support {
                (old(proposal).for_votes + voter.staked_amount) as u64
            } else {
                old(proposal).for_votes
            }
            &&& final(proposal).against_votes == if support {
                old(proposal).against_votes
            } else {
                (old(proposal).against_votes + voter.staked_amount) as u64
            }
            &&& final(proposal).voters@ == old(proposal).voters@.push(voter.owner)
            &&& final(proposal).proposal_id == old(proposal).proposal_id
            &&& final(proposal).author == old(proposal).author
            &&& final(proposal).creation_time == old(proposal).creation_time
            &&& final(proposal).end_time == old(proposal).end_time
            &&& final(proposal).executed == old(proposal).executed
            &&& final(proposal).data == old(proposal).data
        },
        !vote_ok(*old(proposal), voter.owner, voter.staked_amount, support, now) ==> {
            &&& r == Err::<(), ProtocolError>(vote_err(*old(proposal), voter.owner, now))
            &&& final(proposal).voters@ == old(proposal).voters@
            &&& final(proposal).for_votes == old(proposal).for_votes
            &&& final(proposal).against_votes == old(proposal).against_votes
            &&& final(proposal).proposal_id == old(proposal).proposal_id
            &&& final(proposal).author == old(proposal).author
            &&& final(proposal).creation_time == old(proposal).creation_time
            &&& final(proposal).end_time == old(proposal).end_time
            &&& final(proposal).executed == old(proposal).executed
            &&& final(proposal).data == old(proposal).data
        },
{
    if now >= proposal.end_time {
        return Err(ProtocolError::VotingPeriodEnded);
    }
    if proposal.has_voted(voter.owner) {
        return Err(ProtocolError::AlreadyVoted);
    }
    if support {
        if voter.staked_amount > u64::MAX - proposal.for_votes {
            return Err(ProtocolError::Overflow);
        }
        proposal.for_votes = proposal.for_votes + voter.staked_amount;
    } else {
        if voter.staked_amount > u64::MAX - proposal.against_votes {
            return Err(ProtocolError::Overflow);
        }
        proposal.against_votes = proposal.against_votes + voter.staked_amount;
    }
    proposal.voters.push(voter.owner);
    Ok(())
}

/// Voting exclusivity: a voter id already recorded on a proposal can
/// never be accepted again, so each id contributes to the tallies at
/// most once per proposal.
pub proof fn lemma_vote_exclusive(p: Proposal, voter_id: u64, weight: u64, support: bool, now: i64)
    requires
        p.voters@.contains(voter_id),
    ensures
        !vote_ok(p, voter_id, weight, support, now),
        now < p.end_time ==> vote_err(p, voter_id, now) == ProtocolError::AlreadyVoted,
{
}

/// A successful vote records its voter, so exclusivity applies to every
/// later vote by the same id.
pub proof fn lemma_vote_recorded(voters: Seq<u64>, voter_id: u64)
    ensures
        voters.push(voter_id).contains(voter_id),
{
    assert(voters.push(voter_id)[voters.len() as int] == voter_id);
}

/// Whether an execution is accepted: the window closed, the proposal
/// not yet executed, and quorum and majority reached.
pub open spec fn execute_ok(p: Proposal, gov: GovernanceState, now: i64) -> bool {
    &&& now >= p.end_time
    &&& !p.executed
    &&& proposal_passed(p, gov.required_quorum)
}

/// The kind a rejected execution fails with, by the first violated
/// check.
pub open spec fn execute_err(p: Proposal, gov: GovernanceState, now: i64) -> ProtocolError {
    if now < p.end_time {
        ProtocolError::VotingPeriodActive
    } else if p.executed {
        ProtocolError::ProposalAlreadyExecuted
    } else {
        ProtocolError::ProposalNotPassed
    }
}

/// Executes a passed proposal after its voting window closed, at most
/// once.
///
/// The carried payload mutates exactly one parameter of its target
/// record — the pool and governance yield-rate mirror, the treasury
/// withdrawal limit, the voting period, or the quorum — and the proposal
/// is marked executed. Balances and totals are never touched.
pub fn execute_proposal(
    proposal: &mut Proposal,
    gov: &mut GovernanceState,
    pool: &mut StakingState,
    treasury: &mut TreasuryState,
    now: i64,
) -> (r: Result<(), ProtocolError>)
    ensures
        execute_ok(*old(proposal), *old(gov), now) ==> {
            &&& r == Ok::<(), ProtocolError>(())
            &&& final(proposal).executed == true
            &&& final(proposal).voters@ == old(proposal).voters@
            &&& final(proposal).for_votes == old(proposal).for_votes
            &&& final(proposal).against_votes == old(proposal).against_votes
            &&& final(proposal).proposal_id == old(proposal).proposal_id
            &&& final(proposal).author == old(proposal).author
            &&& final(proposal).creation_time == old(proposal).creation_time
            &&& final(proposal).end_time == old(proposal).end_time
            &&& final(proposal).data == old(proposal).data
            &&& match old(proposal).data {
                ProposalData::UpdateApy { new_apy } => {
                    &&& *final(pool) == (StakingState { current_apy: new_apy, ..*old(pool) })
                    &&& *final(gov) == (GovernanceState { current_apy: new_apy, ..*old(gov) })
                    &&& *final(treasury) == *old(treasury)
                },
                ProposalData::UpdateWithdrawalLimit { new_limit } => {
                    &&& *final(treasury) == (TreasuryState {
                        withdrawal_limit: new_limit,
                        ..*old(treasury)
                    })
                    &&& *final(pool) == *old(pool)
                    &&& *final(gov) == *old(gov)
                },
                ProposalData::UpdateVotingPeriod { new_period } => {
                    &&& *final(gov) == (GovernanceState {
                        voting_period: new_period,
                        ..*old(gov)
                    })
                    &&& *final(pool) == *old(pool)
                    &&& *final(treasury) == *old(treasury)
                },
                ProposalData::UpdateQuorum { new_quorum } => {
                    &&& *final(gov) == (GovernanceState {
                        required_quorum: new_quorum,
                        ..*old(gov)
                    })
                    &&& *final(pool) == *old(pool)
                    &&& *final(treasury) == *old(treasury)
                },
            }
        },
        !execute_ok(*old(proposal), *old(gov), now) ==> {
            &&& r == Err::<(), ProtocolError>(execute_err(*old(proposal), *old(gov), now))
            &&& final(proposal).executed == old(proposal).executed
            &&& final(proposal).voters@ == old(proposal).voters@
            &&& final(proposal).for_votes == old(proposal).for_votes
            &&& final(proposal).against_votes == old(proposal).against_votes
            &&& final(proposal).proposal_id == old(proposal).proposal_id
            &&& final(proposal).author == old(proposal).author
            &&& final(proposal).creation_time == old(proposal).creation_time
            &&& final(proposal).end_time == old(proposal).end_time
            &&& final(proposal).data == old(proposal).data
            &&& *final(gov) == *old(gov)
            &&& *final(pool) == *old(pool)
            &&& *final(treasury) == *old(treasury)
        },
{
    if now < proposal.end_time {
        return Err(ProtocolError::VotingPeriodActive);
    }
    if proposal.executed {
        return Err(ProtocolError::ProposalAlreadyExecuted);
    }
    if !proposal.has_passed(gov.required_quorum) {
        return Err(ProtocolError::ProposalNotPassed);
    }
    match proposal.data {
        ProposalData::UpdateApy { new_apy } => {
            pool.current_apy = new_apy;
            gov.current_apy = new_apy;
        },
        ProposalData::UpdateWithdrawalLimit { new_limit } => {
            treasury.withdrawal_limit = new_limit;
        },
        ProposalData::UpdateVotingPeriod { new_period } => {
            gov.voting_period = new_period;
        },
        ProposalData::UpdateQuorum { new_quorum } => {
            gov.required_quorum = new_quorum;
        },
    }
    proposal.executed = true;
    Ok(())
}

/// The parameter-change payload a wire-level kind code and arguments
/// name, if the kind lies in the closed set.
pub fn proposal_data_from_code(kind: u8, value: u64, period: i64) -> (r: Result<
    ProposalData,
    ProtocolError,
>)
    ensures
        kind == 0 ==> r == Ok::<ProposalData, ProtocolError>(
            (ProposalData::UpdateApy { new_apy: value }),
        ),
        kind == 1 ==> r == Ok::<ProposalData, ProtocolError>(
            (ProposalData::UpdateWithdrawalLimit { new_limit: value }),
        ),
        kind == 2 ==> r == Ok::<ProposalData, ProtocolError>(
            (ProposalData::UpdateVotingPeriod { new_period: period }),
        ),
        kind == 3 ==> r == Ok::<ProposalData, ProtocolError>(
            (ProposalData::UpdateQuorum { new_quorum: value }),
        ),
        kind > 3 ==> r == Err::<ProposalData, ProtocolError>(ProtocolError::InvalidProposalType),
{
    if kind == 0 {
        Ok(ProposalData::UpdateApy { new_apy: value })
    } else if kind == 1 {
        Ok(ProposalData::UpdateWithdrawalLimit { new_limit: value })
    } else if kind == 2 {
        Ok(ProposalData::UpdateVotingPeriod { new_period: period })
    } else if kind == 3 {
        Ok(ProposalData::UpdateQuorum { new_quorum: value })
    } else {
        Err(ProtocolError::InvalidProposalType)
    }
}

} // verus!
