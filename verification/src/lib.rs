//! A staking, bonding, treasury and governance ledger.
//!
//! Principals lock value to earn time-weighted yield, queue orderly
//! withdrawals, lock value into fixed-term bonds for a bonus payout, and
//! vote to change protocol parameters. Every operation is a single atomic
//! ledger transition: it either commits all of its state changes or rejects
//! the call with a `ProtocolError` and changes nothing. Moving fungible
//! value between custodial accounts is an external capability: operations
//! that pay out return the amount to transfer, and the surrounding runtime
//! performs the transfer.

use vstd::prelude::*;

pub mod accrual;
pub mod bonding;
pub mod conservation;
pub mod errors;
pub mod governance;
pub mod queue;
pub mod staking;
pub mod treasury;

use crate::errors::ProtocolError;
use crate::governance::GovernanceState;
use crate::staking::StakingState;
use crate::treasury::TreasuryState;

verus! {

/// The parameters a deployment is bootstrapped with.
pub struct ProtocolConfig {
    pub base_apy: u64,
    pub min_stake: u64,
    pub max_stake: u64,
    pub emergency_cooldown: i64,
    pub withdrawal_limit: u64,
    pub voting_period: i64,
}

/// Number of co-signers a treasury withdrawal needs.
pub const DEFAULT_REQUIRED_SIGNATURES: u8 = 3;

/// Combined vote weight a proposal needs to be eligible to pass.
pub const DEFAULT_REQUIRED_QUORUM: u64 = 100;

/// Builds the three protocol-lifetime records from a bootstrap
/// configuration. Fails with `Overflow` only when the first yield-rate
/// adjustment deadline does not fit a timestamp.
pub fn initialize(config: &ProtocolConfig, authority: u64, now: i64) -> (r: Result<
    (StakingState, TreasuryState, GovernanceState),
    ProtocolError,
>)
    ensures
        now + crate::staking::APY_ADJUSTMENT_INTERVAL <= i64::MAX ==> r == Ok::<
            _,
            ProtocolError,
        >(
            (
                (StakingState {
                    authority,
                    current_apy: config.base_apy,
                    min_stake: config.min_stake,
                    max_stake: config.max_stake,
                    emergency_cooldown: config.emergency_cooldown,
                    paused: false,
                    total_staked: 0u64,
                    total_rewards_distributed: 0u64,
                    last_apy_update: now,
                    next_apy_update: (now + crate::staking::APY_ADJUSTMENT_INTERVAL) as i64,
                }),
                (TreasuryState {
                    authority,
                    withdrawal_limit: config.withdrawal_limit,
                    required_signatures: DEFAULT_REQUIRED_SIGNATURES,
                    total_balance: 0u64,
                    cooldown_period: config.emergency_cooldown,
                    last_withdrawal: 0i64,
                    total_distributed: 0u64,
                }),
                (GovernanceState {
                    current_apy: config.base_apy,
                    voting_period: config.voting_period,
                    required_quorum: DEFAULT_REQUIRED_QUORUM,
                    proposal_count: 0u64,
                }),
            ),
        ),
        now + crate::staking::APY_ADJUSTMENT_INTERVAL > i64::MAX ==> r == Err::<
            (StakingState, TreasuryState, GovernanceState),
            _,
        >(ProtocolError::Overflow),
{
    if now > i64::MAX - crate::staking::APY_ADJUSTMENT_INTERVAL {
        return Err(ProtocolError::Overflow);
    }
    let staking = StakingState {
        authority,
        current_apy: config.base_apy,
        min_stake: config.min_stake,
        max_stake: config.max_stake,
        emergency_cooldown: config.emergency_cooldown,
        paused: false,
        total_staked: 0,
        total_rewards_distributed: 0,
        last_apy_update: now,
        next_apy_update: now + crate::staking::APY_ADJUSTMENT_INTERVAL,
    };
    let treasury = TreasuryState {
        authority,
        withdrawal_limit: config.withdrawal_limit,
        required_signatures: DEFAULT_REQUIRED_SIGNATURES,
        total_balance: 0,
        cooldown_period: config.emergency_cooldown,
        last_withdrawal: 0,
        total_distributed: 0,
    };
    let governance = GovernanceState {
        current_apy: config.base_apy,
        voting_period: config.voting_period,
        required_quorum: DEFAULT_REQUIRED_QUORUM,
        proposal_count: 0,
    };
    Ok((staking, treasury, governance))
}

} // verus!
