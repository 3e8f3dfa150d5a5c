//! The error taxonomy of the ledger.
//!
//! Every operation rejects a bad call with one of these kinds and leaves
//! all records unchanged. All rejections are local and non-retryable: the
//! caller observes the failure and may resubmit with corrected inputs.

use vstd::prelude::*;

verus! {

/// One kind per rejection trigger.
#[derive(Clone, Copy, Debug, PartialEq, Eq, Structural)]
pub enum ProtocolError {
    /// A stake amount outside the pool's `[min_stake, max_stake]` bounds.
    InvalidStakeAmount,
    /// An unstake amount above the principal's staked balance.
    InvalidUnstakeAmount,
    /// A withdrawal amount outside the accepted bounds.
    InvalidWithdrawalAmount,
    /// The protocol (or the withdrawal queue) is halted.
    ProtocolPaused,
    /// A checked arithmetic step would overflow or underflow.
    Overflow,
    /// A bond claimed before its maturation time.
    BondNotMature,
    /// A bond that has already paid out.
    BondAlreadyClaimed,
    /// A vote cast at or after the proposal's end time.
    VotingPeriodEnded,
    /// An execution attempted before the proposal's end time.
    VotingPeriodActive,
    /// A voter id already recorded on the proposal.
    AlreadyVoted,
    /// A queued withdrawal above the principal's staked balance.
    InsufficientStake,
    /// A debit above the available balance.
    InsufficientBalance,
    /// A proposal that failed quorum or majority.
    ProposalNotPassed,
    /// A proposal that has already been executed.
    ProposalAlreadyExecuted,
    /// A parameter-change payload kind outside the closed set.
    InvalidProposalType,
    /// A reward claim when no reward is pending.
    NoRewardsAvailable,
    /// Fewer co-signers than the treasury requires.
    InsufficientSignatures,
    /// A treasury withdrawal above the per-call limit.
    WithdrawalLimitExceeded,
    /// A rate-limited action attempted before its cooldown elapsed.
    CooldownPeriodActive,
    /// A caller that is not the record's authority.
    InvalidAuthority,
    /// A bond class code outside the closed set.
    InvalidBondType,
    /// A bond over a non-positive amount.
    InvalidBondAmount,
    /// A yield rate outside the permitted range.
    InvalidRate,
}

} // verus!
