use death_protocol::errors::ProtocolError;
use death_protocol::governance::{
    create_proposal, execute_proposal, proposal_data_from_code, vote, GovernanceState, Proposal,
    ProposalData,
};
use death_protocol::staking::{StakingState, UserStakeInfo};
use death_protocol::treasury::TreasuryState;

const VOTING_PERIOD: i64 = 3 * 86_400;

fn fresh_gov() -> GovernanceState {
    GovernanceState {
        current_apy: 500,
        voting_period: VOTING_PERIOD,
        required_quorum: 100,
        proposal_count: 0,
    }
}

fn fresh_pool() -> StakingState {
    StakingState {
        authority: 7,
        current_apy: 500,
        min_stake: 10,
        max_stake: 1000,
        emergency_cooldown: 7 * 86_400,
        paused: false,
        total_staked: 0,
        total_rewards_distributed: 0,
        last_apy_update: 0,
        next_apy_update: 86_400,
    }
}

fn fresh_treasury() -> TreasuryState {
    TreasuryState {
        authority: 7,
        withdrawal_limit: 1_000,
        required_signatures: 3,
        total_balance: 10_000,
        cooldown_period: 86_400,
        last_withdrawal: 0,
        total_distributed: 0,
    }
}

fn staker(owner: u64, staked: u64) -> UserStakeInfo {
    UserStakeInfo {
        owner,
        staked_amount: staked,
        last_stake_timestamp: 0,
        rewards_tally: 0,
        rewards_claimed: 0,
        tier: 0,
        delegated_stake: 0,
        auto_compound: false,
        withdrawal_pending: false,
        withdrawal_amount: 0,
        last_emergency_withdraw: 0,
    }
}

#[test]
fn create_proposal_assigns_sequential_ids() {
    let mut gov = fresh_gov();
    let payload = ProposalData::UpdateApy { new_apy: 700 };
    let first = create_proposal(&mut gov, 1, payload, 1_000).unwrap();
    assert_eq!(first.proposal_id, 0);
    assert_eq!(first.author, 1);
    assert_eq!(first.creation_time, 1_000);
    assert_eq!(first.end_time, 1_000 + VOTING_PERIOD);
    assert!(!first.executed);
    assert_eq!(first.for_votes, 0);
    assert_eq!(first.against_votes, 0);
    assert!(first.voters.is_empty());
    let second = create_proposal(&mut gov, 2, payload, 2_000).unwrap();
    assert_eq!(second.proposal_id, 1);
    assert_eq!(gov.proposal_count, 2);
}

#[test]
fn vote_is_stake_weighted() {
    let mut gov = fresh_gov();
    let mut proposal =
        create_proposal(&mut gov, 1, ProposalData::UpdateApy { new_apy: 700 }, 0).unwrap();
    assert_eq!(vote(&mut proposal, &staker(10, 60), true, 100), Ok(()));
    assert_eq!(vote(&mut proposal, &staker(11, 30), false, 200), Ok(()));
    assert_eq!(proposal.for_votes, 60);
    assert_eq!(proposal.against_votes, 30);
    assert_eq!(proposal.voters, vec![10, 11]);
}

#[test]
fn voting_exclusivity_one_contribution_per_id() {
    let mut gov = fresh_gov();
    let mut proposal =
        create_proposal(&mut gov, 1, ProposalData::UpdateApy { new_apy: 700 }, 0).unwrap();
    let alice = staker(10, 60);
    assert_eq!(vote(&mut proposal, &alice, true, 100), Ok(()));
    // The same id is rejected on both sides of the question.
    assert_eq!(
        vote(&mut proposal, &alice, true, 150),
        Err(ProtocolError::AlreadyVoted)
    );
    assert_eq!(
        vote(&mut proposal, &alice, false, 150),
        Err(ProtocolError::AlreadyVoted)
    );
    assert_eq!(proposal.for_votes, 60);
    assert_eq!(proposal.against_votes, 0);
    assert_eq!(proposal.voters, vec![10]);
}

#[test]
fn vote_rejected_after_window_closes() {
    let mut gov = fresh_gov();
    let mut proposal =
        create_proposal(&mut gov, 1, ProposalData::UpdateApy { new_apy: 700 }, 0).unwrap();
    assert_eq!(
        vote(&mut proposal, &staker(10, 60), true, VOTING_PERIOD),
        Err(ProtocolError::VotingPeriodEnded)
    );
    assert_eq!(proposal.for_votes, 0);
}

#[test]
fn scenario_quorum_failure() {
    // required_quorum = 100, for 60, against 30: the window closes with
    // 90 combined weight, short of quorum, so execution is rejected.
    let mut gov = fresh_gov();
    let mut pool = fresh_pool();
    let mut treasury = fresh_treasury();
    let mut proposal =
        create_proposal(&mut gov, 1, ProposalData::UpdateApy { new_apy: 700 }, 0).unwrap();
    assert_eq!(vote(&mut proposal, &staker(10, 60), true, 100), Ok(()));
    assert_eq!(vote(&mut proposal, &staker(11, 30), false, 200), Ok(()));
    assert_eq!(
        execute_proposal(&mut proposal, &mut gov, &mut pool, &mut treasury, VOTING_PERIOD),
        Err(ProtocolError::ProposalNotPassed)
    );
    assert!(!proposal.executed);
    assert_eq!(pool.current_apy, 500);
}

#[test]
fn execute_rejected_while_window_open() {
    let mut gov = fresh_gov();
    let mut pool = fresh_pool();
    let mut treasury = fresh_treasury();
    let mut proposal =
        create_proposal(&mut gov, 1, ProposalData::UpdateApy { new_apy: 700 }, 0).unwrap();
    assert_eq!(
        execute_proposal(&mut proposal, &mut gov, &mut pool, &mut treasury, VOTING_PERIOD - 1),
        Err(ProtocolError::VotingPeriodActive)
    );
}

#[test]
fn execute_applies_rate_change_once() {
    let mut gov = fresh_gov();
    let mut pool = fresh_pool();
    let mut treasury = fresh_treasury();
    let mut proposal =
        create_proposal(&mut gov, 1, ProposalData::UpdateApy { new_apy: 700 }, 0).unwrap();
    assert_eq!(vote(&mut proposal, &staker(10, 80), true, 100), Ok(()));
    assert_eq!(vote(&mut proposal, &staker(11, 30), false, 200), Ok(()));
    assert_eq!(
        execute_proposal(&mut proposal, &mut gov, &mut pool, &mut treasury, VOTING_PERIOD),
        Ok(())
    );
    assert!(proposal.executed);
    assert_eq!(pool.current_apy, 700);
    assert_eq!(gov.current_apy, 700);
    assert_eq!(treasury.total_balance, 10_000);
    assert_eq!(
        execute_proposal(&mut proposal, &mut gov, &mut pool, &mut treasury, VOTING_PERIOD + 1),
        Err(ProtocolError::ProposalAlreadyExecuted)
    );
}

#[test]
fn execute_applies_each_payload_to_its_target() {
    let mut gov = fresh_gov();
    let mut pool = fresh_pool();
    let mut treasury = fresh_treasury();
    let payloads = [
        ProposalData::UpdateWithdrawalLimit { new_limit: 2_500 },
        ProposalData::UpdateVotingPeriod {
            new_period: 5 * 86_400,
        },
        ProposalData::UpdateQuorum { new_quorum: 40 },
    ];
    for payload in payloads {
        let created_at = 0;
        let window = gov.voting_period;
        let mut proposal = create_proposal(&mut gov, 1, payload, created_at).unwrap();
        assert_eq!(vote(&mut proposal, &staker(10, 200), true, created_at + 1), Ok(()));
        assert_eq!(
            execute_proposal(
                &mut proposal,
                &mut gov,
                &mut pool,
                &mut treasury,
                created_at + window
            ),
            Ok(())
        );
    }
    assert_eq!(treasury.withdrawal_limit, 2_500);
    assert_eq!(gov.voting_period, 5 * 86_400);
    assert_eq!(gov.required_quorum, 40);
    assert_eq!(pool.current_apy, 500);
}

#[test]
fn proposal_passes_only_with_quorum_and_majority() {
    let mut gov = fresh_gov();
    let base = create_proposal(&mut gov, 1, ProposalData::UpdateApy { new_apy: 700 }, 0).unwrap();
    let with_votes = |for_votes: u64, against_votes: u64| -> Proposal {
        let mut p = base.clone();
        p.for_votes = for_votes;
        p.against_votes = against_votes;
        p
    };
    assert!(!with_votes(60, 30).has_passed(100));
    assert!(with_votes(60, 40).has_passed(100));
    assert!(!with_votes(50, 50).has_passed(100));
    assert!(!with_votes(40, 60).has_passed(100));
    assert!(with_votes(101, 0).has_passed(100));
}

#[test]
fn payload_codes_cover_the_closed_set() {
    assert_eq!(
        proposal_data_from_code(0, 700, 0),
        Ok(ProposalData::UpdateApy { new_apy: 700 })
    );
    assert_eq!(
        proposal_data_from_code(1, 2_500, 0),
        Ok(ProposalData::UpdateWithdrawalLimit { new_limit: 2_500 })
    );
    assert_eq!(
        proposal_data_from_code(2, 0, 5 * 86_400),
        Ok(ProposalData::UpdateVotingPeriod {
            new_period: 5 * 86_400
        })
    );
    assert_eq!(
        proposal_data_from_code(3, 40, 0),
        Ok(ProposalData::UpdateQuorum { new_quorum: 40 })
    );
    assert_eq!(
        proposal_data_from_code(4, 0, 0),
        Err(ProtocolError::InvalidProposalType)
    );
}

#[test]
fn has_voted_tracks_the_recorded_set() {
    let mut gov = fresh_gov();
    let mut proposal =
        create_proposal(&mut gov, 1, ProposalData::UpdateApy { new_apy: 700 }, 0).unwrap();
    assert!(!proposal.has_voted(10));
    assert_eq!(vote(&mut proposal, &staker(10, 60), true, 100), Ok(()));
    assert!(proposal.has_voted(10));
    assert!(!proposal.has_voted(11));
}
