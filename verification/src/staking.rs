//! The staking ledger: global pool state, per-principal stake records,
//! and the operations that move value between them.

use vstd::arithmetic::div_mod::{
    lemma_div_by_multiple, lemma_div_is_ordered, lemma_div_pos_is_pos,
};
use vstd::arithmetic::mul::{
    lemma_mul_is_commutative, lemma_mul_inequality, lemma_mul_nonnegative, lemma_mul_upper_bound,
};
use vstd::prelude::*;

use crate::accrual::{accrue, accrue_amount, accrue_fits, lemma_accrue_amount_nonneg};
use crate::errors::ProtocolError;

verus! {

/// Largest permitted yield rate, in basis points.
pub const MAX_APY: u64 = 1000;

/// Seconds that must elapse between two yield-rate updates.
pub const APY_ADJUSTMENT_INTERVAL: i64 = 24 * 60 * 60;

/// Percentage of an emergency withdrawal withheld as penalty.
pub const EMERGENCY_WITHDRAWAL_PENALTY: u64 = 20;

/// Balance thresholds of the incentive brackets.
pub const TIER_ONE_BALANCE: u64 = 1_000;

pub const TIER_TWO_BALANCE: u64 = 10_000;

pub const TIER_THREE_BALANCE: u64 = 100_000;

/// Tenure beyond which a bracket is raised by one (ninety days).
pub const TIER_TENURE_BONUS: i64 = 90 * 24 * 60 * 60;

/// Global pool state, created once at bootstrap.
#[derive(Clone, Copy, Debug, PartialEq, Eq, Structural)]
pub struct StakingState {
    pub authority: u64,
    pub current_apy: u64,
    pub min_stake: u64,
    pub max_stake: u64,
    pub emergency_cooldown: i64,
    pub paused: bool,
    pub total_staked: u64,
    pub total_rewards_distributed: u64,
    pub last_apy_update: i64,
    pub next_apy_update: i64,
}

/// One principal's stake record.
#[derive(Clone, Copy, Debug, PartialEq, Eq, Structural)]
pub struct UserStakeInfo {
    pub owner: u64,
    pub staked_amount: u64,
    pub last_stake_timestamp: i64,
    pub rewards_tally: u64,
    pub rewards_claimed: u64,
    pub tier: u8,
    pub delegated_stake: u64,
    pub auto_compound: bool,
    pub withdrawal_pending: bool,
    pub withdrawal_amount: u64,
    pub last_emergency_withdraw: i64,
}

/// The incentive bracket of a balance: three size brackets, raised by one
/// when the completed accrual stretch exceeds ninety days.
pub open spec fn tier_of(balance: u64, tenure: int) -> u8 {
    let bracket: u8 = if balance >= TIER_THREE_BALANCE {
        3u8
    } else if balance >= TIER_TWO_BALANCE {
        2u8
    } else if balance >= TIER_ONE_BALANCE {
        1u8
    } else {
        0u8
    };
    if tenure > TIER_TENURE_BONUS && bracket < 3 {
        (bracket + 1) as u8
    } else {
        bracket
    }
}

/// The accrual stretch a record has completed at `now`: zero for an empty
/// balance, the time since the last accrual otherwise.
pub open spec fn tenure_of(user: UserStakeInfo, now: i64) -> int {
    if user.staked_amount == 0 {
        0
    } else {
        now - user.last_stake_timestamp
    }
}

/// Whether the pending reward of a record is representable: the elapsed
/// time fits a timestamp and the accrual stays in range.
pub open spec fn settle_ok(user: UserStakeInfo, apy: u64, now: i64) -> bool {
    now - user.last_stake_timestamp <= i64::MAX && accrue_fits(
        user.staked_amount,
        apy,
        now - user.last_stake_timestamp,
    )
}

/// The reward a record has accrued since its last accrual timestamp.
pub open spec fn pending_reward(user: UserStakeInfo, apy: u64, now: i64) -> int {
    accrue_amount(user.staked_amount, apy, now - user.last_stake_timestamp)
}

impl UserStakeInfo {
    /// The reward this record has accrued since its last accrual
    /// timestamp, under the given yield rate.
    pub fn calculate_rewards(&self, current_time: i64, apy: u64) -> (r: Result<u64, ProtocolError>)
        ensures
            settle_ok(*self, apy, current_time) ==> r == Ok::<u64, ProtocolError>(
                pending_reward(*self, apy, current_time) as u64,
            ),
            !settle_ok(*self, apy, current_time) ==> r == Err::<u64, ProtocolError>(
                ProtocolError::Overflow,
            ),
    {
        let elapsed_wide: i128 = (current_time as i128) - (self.last_stake_timestamp as i128);
        if elapsed_wide <= 0 {
            return Ok(0);
        }
        if elapsed_wide > i64::MAX as i128 {
            return Err(ProtocolError::Overflow);
        }
        accrue(self.staked_amount, apy, elapsed_wide as i64)
    }
}

/// The incentive bracket an operation leaves a record in: computed from
/// the new balance and the accrual stretch the record completed.
fn tier_for(balance: u64, staked_before: u64, last_time: i64, now: i64) -> (t: u8)
    ensures
        t == tier_of(
            balance,
            if staked_before == 0 {
                0int
            } else {
                now - last_time
            },
        ),
{
    let tenure: i128 = if staked_before == 0 {
        0
    } else {
        (now as i128) - (last_time as i128)
    };
    let bracket: u8 = if balance >= TIER_THREE_BALANCE {
        3
    } else if balance >= TIER_TWO_BALANCE {
        2
    } else if balance >= TIER_ONE_BALANCE {
        1
    } else {
        0
    };
    if tenure > TIER_TENURE_BONUS as i128 && bracket < 3 {
        bracket + 1
    } else {
        bracket
    }
}

/// Whether a stake is accepted: the pool live, the amount inside the
/// pool bounds, and every arithmetic step representable.
pub open spec fn stake_ok(pool: StakingState, user: UserStakeInfo, amount: u64, now: i64) -> bool {
    &&& !pool.paused
    &&& pool.min_stake <= amount <= pool.max_stake
    &&& settle_ok(user, pool.current_apy, now)
    &&& user.rewards_tally + pending_reward(user, pool.current_apy, now) <= u64::MAX
    &&& user.staked_amount + amount <= u64::MAX
    &&& pool.total_staked + amount <= u64::MAX
}

/// The kind a rejected stake fails with, by the first violated check.
pub open spec fn stake_err(pool: StakingState, amount: u64) -> ProtocolError {
    if pool.paused {
        ProtocolError::ProtocolPaused
    } else if amount < pool.min_stake || amount > pool.max_stake {
        ProtocolError::InvalidStakeAmount
    } else {
        ProtocolError::Overflow
    }
}

/// Stakes `amount` for a principal.
///
/// Settles the pending reward into the record's tally, raises the staked
/// balance and the pool total by exactly `amount`, refreshes the accrual
/// timestamp and the incentive bracket. The matching transfer of `amount`
/// into custody is the caller's to perform before committing this state.
pub fn stake(pool: &mut StakingState, user: &mut UserStakeInfo, amount: u64, now: i64) -> (r:
    Result<(), ProtocolError>)
    ensures
        stake_ok(*old(pool), *old(user), amount, now) ==> {
            &&& r == Ok::<(), ProtocolError>(())
            &&& *final(user) == (UserStakeInfo {
                staked_amount: (old(user).staked_amount + amount) as u64,
                last_stake_timestamp: now,
                rewards_tally: (old(user).rewards_tally + pending_reward(
                    *old(user),
                    old(pool).current_apy,
                    now,
                )) as u64,
                tier: tier_of(
                    (old(user).staked_amount + amount) as u64,
                    tenure_of(*old(user), now),
                ),
                ..*old(user)
            })
            &&& *final(pool) == (StakingState {
                total_staked: (old(pool).total_staked + amount) as u64,
                ..*old(pool)
            })
        },
        !stake_ok(*old(pool), *old(user), amount, now) ==> {
            &&& r == Err::<(), ProtocolError>(stake_err(*old(pool), amount))
            &&& *final(user) == *old(user)
            &&& *final(pool) == *old(pool)
        },
{
    if pool.paused {
        return Err(ProtocolError::ProtocolPaused);
    }
    if amount < pool.min_stake || amount > pool.max_stake {
        return Err(ProtocolError::InvalidStakeAmount);
    }
    let pending = match user.calculate_rewards(now, pool.current_apy) {
        Ok(p) => p,
        Err(e) => {
            return Err(e);
        },
    };
    proof {
        lemma_accrue_amount_nonneg(
            user.staked_amount,
            pool.current_apy,
            now - user.last_stake_timestamp,
        );
    }
    if pending > u64::MAX - user.rewards_tally {
        return Err(ProtocolError::Overflow);
    }
    if amount > u64::MAX - user.staked_amount {
        return Err(ProtocolError::Overflow);
    }
    if amount > u64::MAX - pool.total_staked {
        return Err(ProtocolError::Overflow);
    }
    let new_tier = tier_for(
        user.staked_amount + amount,
        user.staked_amount,
        user.last_stake_timestamp,
        now,
    );
    user.rewards_tally = user.rewards_tally + pending;
    user.staked_amount = user.staked_amount + amount;
    user.last_stake_timestamp = now;
    user.tier = new_tier;
    pool.total_staked = pool.total_staked + amount;
    Ok(())
}

/// The full reward an unstake or settlement pays: the settled tally plus
/// the reward accrued since the last accrual timestamp.
pub open spec fn unstake_reward(user: UserStakeInfo, apy: u64, now: i64) -> int {
    user.rewards_tally + pending_reward(user, apy, now)
}

/// Whether an unstake is accepted.
pub open spec fn unstake_ok(pool: StakingState, user: UserStakeInfo, amount: u64, now: i64) -> bool {
    let reward = unstake_reward(user, pool.current_apy, now);
    &&& !pool.paused
    &&& amount <= user.staked_amount
    &&& settle_ok(user, pool.current_apy, now)
    &&& reward <= u64::MAX
    &&& user.rewards_claimed + reward <= u64::MAX
    &&& pool.total_rewards_distributed + reward <= u64::MAX
    &&& amount <= pool.total_staked
    &&& if user.auto_compound {
        user.staked_amount - amount + reward <= u64::MAX && pool.total_staked - amount + reward
            <= u64::MAX
    } else {
        amount + reward <= u64::MAX
    }
}

/// The kind a rejected unstake fails with, by the first violated check.
pub open spec fn unstake_err(pool: StakingState, user: UserStakeInfo, amount: u64) -> ProtocolError {
    if pool.paused {
        ProtocolError::ProtocolPaused
    } else if amount > user.staked_amount {
        ProtocolError::InvalidUnstakeAmount
    } else {
        ProtocolError::Overflow
    }
}

/// Unstakes `amount` for a principal.
///
/// Settles the full pending reward. Under auto-compound the reward is
/// folded back into the staked balance and the pool total, and nothing is
/// paid out; otherwise `amount + reward` is owed to the principal and the
/// returned payout is the amount the caller must transfer out. The staked
/// balance and the pool total drop by exactly `amount` (plus the
/// compounded reward under auto-compound).
pub fn unstake(pool: &mut StakingState, user: &mut UserStakeInfo, amount: u64, now: i64) -> (r:
    Result<u64, ProtocolError>)
    ensures
        unstake_ok(*old(pool), *old(user), amount, now) ==> ({
            let reward = unstake_reward(*old(user), old(pool).current_apy, now);
            let new_balance = if old(user).auto_compound {
                (old(user).staked_amount - amount + reward) as u64
            } else {
                (old(user).staked_amount - amount) as u64
            };
            &&& r == Ok::<u64, ProtocolError>(
                if old(user).auto_compound {
                    0u64
                } else {
                    (amount + reward) as u64
                },
            )
            &&& *final(user) == (UserStakeInfo {
                staked_amount: new_balance,
                last_stake_timestamp: now,
                rewards_tally: 0u64,
                rewards_claimed: (old(user).rewards_claimed + reward) as u64,
                tier: tier_of(new_balance, tenure_of(*old(user), now)),
                ..*old(user)
            })
            &&& *final(pool) == (StakingState {
                total_staked: if old(user).auto_compound {
                    (old(pool).total_staked - amount + reward) as u64
                } else {
                    (old(pool).total_staked - amount) as u64
                },
                total_rewards_distributed: (old(pool).total_rewards_distributed + reward) as u64,
                ..*old(pool)
            })
        }),
        !unstake_ok(*old(pool), *old(user), amount, now) ==> {
            &&& r == Err::<u64, ProtocolError>(unstake_err(*old(pool), *old(user), amount))
            &&& *final(user) == *old(user)
            &&& *final(pool) == *old(pool)
        },
{
    if pool.paused {
        return Err(ProtocolError::ProtocolPaused);
    }
    if amount > user.staked_amount {
        return Err(ProtocolError::InvalidUnstakeAmount);
    }
    let pending = match user.calculate_rewards(now, pool.current_apy) {
        Ok(p) => p,
        Err(e) => {
            return Err(e);
        },
    };
    proof {
        lemma_accrue_amount_nonneg(
            user.staked_amount,
            pool.current_apy,
            now - user.last_stake_timestamp,
        );
    }
    if pending > u64::MAX - user.rewards_tally {
        return Err(ProtocolError::Overflow);
    }
    let reward = user.rewards_tally + pending;
    if reward > u64::MAX - user.rewards_claimed {
        return Err(ProtocolError::Overflow);
    }
    if reward > u64::MAX - pool.total_rewards_distributed {
        return Err(ProtocolError::Overflow);
    }
    if amount > pool.total_staked {
        return Err(ProtocolError::Overflow);
    }
    let payout: u64;
    let new_balance: u64;
    let new_total: u64;
    if user.auto_compound {
        let kept = user.staked_amount - amount;
        if reward > u64::MAX - kept {
            return Err(ProtocolError::Overflow);
        }
        let pool_kept = pool.total_staked - amount;
        if reward > u64::MAX - pool_kept {
            return Err(ProtocolError::Overflow);
        }
        payout = 0;
        new_balance = kept + reward;
        new_total = pool_kept + reward;
    } else {
        if reward > u64::MAX - amount {
            return Err(ProtocolError::Overflow);
        }
        payout = amount + reward;
        new_balance = user.staked_amount - amount;
        new_total = pool.total_staked - amount;
    }
    let new_tier = tier_for(new_balance, user.staked_amount, user.last_stake_timestamp, now);
    user.staked_amount = new_balance;
    user.last_stake_timestamp = now;
    user.rewards_tally = 0;
    user.rewards_claimed = user.rewards_claimed + reward;
    user.tier = new_tier;
    pool.total_staked = new_total;
    pool.total_rewards_distributed = pool.total_rewards_distributed + reward;
    Ok(payout)
}

/// Whether a compound is accepted: the settlement representable and
/// every counter it raises still in range.
pub open spec fn compound_ok(pool: StakingState, user: UserStakeInfo, now: i64) -> bool {
    let reward = unstake_reward(user, pool.current_apy, now);
    &&& settle_ok(user, pool.current_apy, now)
    &&& reward <= u64::MAX
    &&& user.staked_amount + reward <= u64::MAX
    &&& user.rewards_claimed + reward <= u64::MAX
    &&& pool.total_staked + reward <= u64::MAX
    &&& pool.total_rewards_distributed + reward <= u64::MAX
}

/// Forces settlement of the pending reward into the staked balance.
///
/// The tally is reset, the balance and the pool total grow by the full
/// reward, and the distributed-rewards counters record it. No value
/// leaves custody. Rejects only on arithmetic overflow, and then changes
/// nothing.
pub fn compound_rewards(pool: &mut StakingState, user: &mut UserStakeInfo, now: i64) -> (r: Result<
    (),
    ProtocolError,
>)
    ensures
        compound_ok(*old(pool), *old(user), now) ==> ({
            let reward = unstake_reward(*old(user), old(pool).current_apy, now);
            &&& r == Ok::<(), ProtocolError>(())
            &&& *final(user) == (UserStakeInfo {
                staked_amount: (old(user).staked_amount + reward) as u64,
                last_stake_timestamp: now,
                rewards_tally: 0u64,
                rewards_claimed: (old(user).rewards_claimed + reward) as u64,
                ..*old(user)
            })
            &&& *final(pool) == (StakingState {
                total_staked: (old(pool).total_staked + reward) as u64,
                total_rewards_distributed: (old(pool).total_rewards_distributed + reward) as u64,
                ..*old(pool)
            })
        }),
        !compound_ok(*old(pool), *old(user), now) ==> {
            &&& r == Err::<(), ProtocolError>(ProtocolError::Overflow)
            &&& *final(user) == *old(user)
            &&& *final(pool) == *old(pool)
        },
{
    let pending = match user.calculate_rewards(now, pool.current_apy) {
        Ok(p) => p,
        Err(e) => {
            return Err(e);
        },
    };
    proof {
        lemma_accrue_amount_nonneg(
            user.staked_amount,
            pool.current_apy,
            now - user.last_stake_timestamp,
        );
    }
    if pending > u64::MAX - user.rewards_tally {
        return Err(ProtocolError::Overflow);
    }
    let reward = user.rewards_tally + pending;
    if reward > u64::MAX - user.staked_amount {
        return Err(ProtocolError::Overflow);
    }
    if reward > u64::MAX - user.rewards_claimed {
        return Err(ProtocolError::Overflow);
    }
    if reward > u64::MAX - pool.total_staked {
        return Err(ProtocolError::Overflow);
    }
    if reward > u64::MAX - pool.total_rewards_distributed {
        return Err(ProtocolError::Overflow);
    }
    user.staked_amount = user.staked_amount + reward;
    user.last_stake_timestamp = now;
    user.rewards_tally = 0;
    user.rewards_claimed = user.rewards_claimed + reward;
    pool.total_staked = pool.total_staked + reward;
    pool.total_rewards_distributed = pool.total_rewards_distributed + reward;
    Ok(())
}

/// Whether a reward claim is accepted: the settlement representable, a
/// positive reward pending, and the counters it raises still in range.
pub open spec fn claim_ok(pool: StakingState, user: UserStakeInfo, now: i64) -> bool {
    let reward = unstake_reward(user, pool.current_apy, now);
    &&& settle_ok(user, pool.current_apy, now)
    &&& reward <= u64::MAX
    &&& reward > 0
    &&& user.rewards_claimed + reward <= u64::MAX
    &&& pool.total_rewards_distributed + reward <= u64::MAX
}

/// The kind a rejected reward claim fails with.
pub open spec fn claim_err(pool: StakingState, user: UserStakeInfo, now: i64) -> ProtocolError {
    let reward = unstake_reward(user, pool.current_apy, now);
    if !settle_ok(user, pool.current_apy, now) || reward > u64::MAX {
        ProtocolError::Overflow
    } else if reward == 0 {
        ProtocolError::NoRewardsAvailable
    } else {
        ProtocolError::Overflow
    }
}

/// Pays out the full pending reward without touching the staked balance.
///
/// Returns the amount owed to the principal; the matching transfer out of
/// custody is the caller's to perform. Rejects a claim with nothing
/// pending with `NoRewardsAvailable`.
pub fn claim_rewards(pool: &mut StakingState, user: &mut UserStakeInfo, now: i64) -> (r: Result<
    u64,
    ProtocolError,
>)
    ensures
        claim_ok(*old(pool), *old(user), now) ==> ({
            let reward = unstake_reward(*old(user), old(pool).current_apy, now);
            &&& r == Ok::<u64, ProtocolError>(reward as u64)
            &&& *final(user) == (UserStakeInfo {
                last_stake_timestamp: now,
                rewards_tally: 0u64,
                rewards_claimed: (old(user).rewards_claimed + reward) as u64,
                ..*old(user)
            })
            &&& *final(pool) == (StakingState {
                total_rewards_distributed: (old(pool).total_rewards_distributed + reward) as u64,
                ..*old(pool)
            })
        }),
        !claim_ok(*old(pool), *old(user), now) ==> {
            &&& r == Err::<u64, ProtocolError>(claim_err(*old(pool), *old(user), now))
            &&& *final(user) == *old(user)
            &&& *final(pool) == *old(pool)
        },
{
    let pending = match user.calculate_rewards(now, pool.current_apy) {
        Ok(p) => p,
        Err(e) => {
            return Err(e);
        },
    };
    proof {
        lemma_accrue_amount_nonneg(
            user.staked_amount,
            pool.current_apy,
            now - user.last_stake_timestamp,
        );
    }
    if pending > u64::MAX - user.rewards_tally {
        return Err(ProtocolError::Overflow);
    }
    let reward = user.rewards_tally + pending;
    if reward == 0 {
        return Err(ProtocolError::NoRewardsAvailable);
    }
    if reward > u64::MAX - user.rewards_claimed {
        return Err(ProtocolError::Overflow);
    }
    if reward > u64::MAX - pool.total_rewards_distributed {
        return Err(ProtocolError::Overflow);
    }
    user.last_stake_timestamp = now;
    user.rewards_tally = 0;
    user.rewards_claimed = user.rewards_claimed + reward;
    pool.total_rewards_distributed = pool.total_rewards_distributed + reward;
    Ok(reward)
}

/// Whether a delegation is accepted: covered by the delegator's stake
/// and every counter it raises still in range.
pub open spec fn delegate_ok(delegator: UserStakeInfo, delegatee: UserStakeInfo, amount: u64) -> bool {
    &&& amount <= delegator.staked_amount
    &&& delegator.delegated_stake + amount <= u64::MAX
    &&& delegatee.staked_amount + amount <= u64::MAX
}

/// The kind a rejected delegation fails with.
pub open spec fn delegate_err(delegator: UserStakeInfo, amount: u64) -> ProtocolError {
    if amount > delegator.staked_amount {
        ProtocolError::InsufficientBalance
    } else {
        ProtocolError::Overflow
    }
}

/// Moves `amount` of staked value from the delegator to the delegatee.
///
/// The delegator's balance drops and its delegated-out counter rises by
/// `amount`; the delegatee's balance rises by the same `amount`. No value
/// is created or destroyed and the pool total is untouched.
pub fn delegate_stake(
    delegator: &mut UserStakeInfo,
    delegatee: &mut UserStakeInfo,
    amount: u64,
) -> (r: Result<(), ProtocolError>)
    ensures
        delegate_ok(*old(delegator), *old(delegatee), amount) ==> {
            &&& r == Ok::<(), ProtocolError>(())
            &&& *final(delegator) == (UserStakeInfo {
                staked_amount: (old(delegator).staked_amount - amount) as u64,
                delegated_stake: (old(delegator).delegated_stake + amount) as u64,
                ..*old(delegator)
            })
            &&& *final(delegatee) == (UserStakeInfo {
                staked_amount: (old(delegatee).staked_amount + amount) as u64,
                ..*old(delegatee)
            })
        },
        !delegate_ok(*old(delegator), *old(delegatee), amount) ==> {
            &&& r == Err::<(), ProtocolError>(delegate_err(*old(delegator), amount))
            &&& *final(delegator) == *old(delegator)
            &&& *final(delegatee) == *old(delegatee)
        },
{
    if amount > delegator.staked_amount {
        return Err(ProtocolError::InsufficientBalance);
    }
    if amount > u64::MAX - delegator.delegated_stake {
        return Err(ProtocolError::Overflow);
    }
    if amount > u64::MAX - delegatee.staked_amount {
        return Err(ProtocolError::Overflow);
    }
    delegator.staked_amount = delegator.staked_amount - amount;
    delegator.delegated_stake = delegator.delegated_stake + amount;
    delegatee.staked_amount = delegatee.staked_amount + amount;
    Ok(())
}

/// Whether a yield-rate update is accepted: the caller the authority,
/// the rate inside bounds, the adjustment interval elapsed, and the next
/// deadline representable.
pub open spec fn update_apy_ok(pool: StakingState, authority: u64, new_apy: u64, now: i64) -> bool {
    &&& authority == pool.authority
    &&& new_apy <= MAX_APY
    &&& now >= pool.next_apy_update
    &&& now + APY_ADJUSTMENT_INTERVAL <= i64::MAX
}

/// The kind a rejected yield-rate update fails with.
pub open spec fn update_apy_err(pool: StakingState, authority: u64, new_apy: u64, now: i64) -> ProtocolError {
    if authority != pool.authority {
        ProtocolError::InvalidAuthority
    } else if new_apy > MAX_APY {
        ProtocolError::InvalidRate
    } else if now < pool.next_apy_update {
        ProtocolError::CooldownPeriodActive
    } else {
        ProtocolError::Overflow
    }
}

/// Sets the pool's yield rate.
///
/// Authority-gated and rate-limited: permitted only at or after the
/// scheduled next update, and schedules the following one a full
/// adjustment interval later.
pub fn update_apy(pool: &mut StakingState, authority: u64, new_apy: u64, now: i64) -> (r: Result<
    (),
    ProtocolError,
>)
    ensures
        update_apy_ok(*old(pool), authority, new_apy, now) ==> {
            &&& r == Ok::<(), ProtocolError>(())
            &&& *final(pool) == (StakingState {
                current_apy: new_apy,
                last_apy_update: now,
                next_apy_update: (now + APY_ADJUSTMENT_INTERVAL) as i64,
                ..*old(pool)
            })
        },
        !update_apy_ok(*old(pool), authority, new_apy, now) ==> {
            &&& r == Err::<(), ProtocolError>(update_apy_err(*old(pool), authority, new_apy, now))
            &&& *final(pool) == *old(pool)
        },
{
    if authority != pool.authority {
        return Err(ProtocolError::InvalidAuthority);
    }
    if new_apy > MAX_APY {
        return Err(ProtocolError::InvalidRate);
    }
    if now < pool.next_apy_update {
        return Err(ProtocolError::CooldownPeriodActive);
    }
    if now > i64::MAX - APY_ADJUSTMENT_INTERVAL {
        return Err(ProtocolError::Overflow);
    }
    pool.current_apy = new_apy;
    pool.last_apy_update = now;
    pool.next_apy_update = now + APY_ADJUSTMENT_INTERVAL;
    Ok(())
}

/// The penalty withheld from an emergency withdrawal.
pub open spec fn emergency_penalty(amount: u64) -> int {
    amount * EMERGENCY_WITHDRAWAL_PENALTY / 100
}

/// The penalty never exceeds the amount it is withheld from.
pub proof fn lemma_emergency_penalty_le(amount: u64)
    ensures
        0 <= emergency_penalty(amount) <= amount,
{
    lemma_mul_nonnegative(amount as int, EMERGENCY_WITHDRAWAL_PENALTY as int);
    lemma_div_pos_is_pos(amount * EMERGENCY_WITHDRAWAL_PENALTY, 100);
    lemma_mul_inequality(EMERGENCY_WITHDRAWAL_PENALTY as int, 100, amount as int);
    lemma_mul_is_commutative(amount as int, EMERGENCY_WITHDRAWAL_PENALTY as int);
    lemma_mul_is_commutative(amount as int, 100);
    lemma_div_is_ordered(
        amount * EMERGENCY_WITHDRAWAL_PENALTY,
        amount * 100,
        100,
    );
    lemma_div_by_multiple(amount as int, 100);
    lemma_mul_is_commutative(amount as int, 100);
}

/// Whether an emergency withdrawal is accepted: the per-user cooldown
/// elapsed and the amount covered by the record and the pool.
pub open spec fn emergency_ok(pool: StakingState, user: UserStakeInfo, amount: u64, now: i64) -> bool {
    &&& now - user.last_emergency_withdraw >= pool.emergency_cooldown
    &&& amount <= user.staked_amount
    &&& amount <= pool.total_staked
}

/// The kind a rejected emergency withdrawal fails with.
pub open spec fn emergency_err(pool: StakingState, user: UserStakeInfo, amount: u64, now: i64) -> ProtocolError {
    if now - user.last_emergency_withdraw < pool.emergency_cooldown {
        ProtocolError::CooldownPeriodActive
    } else if amount > user.staked_amount {
        ProtocolError::InsufficientBalance
    } else {
        ProtocolError::Overflow
    }
}

/// Withdraws `amount` immediately, bypassing the queue, against a fixed
/// percentage penalty.
///
/// Permitted once per cooldown window per principal. The full `amount`
/// is debited from the staked balance and the pool total; the returned
/// payout, `amount` less the penalty, is the amount the caller must
/// transfer out.
pub fn emergency_withdraw(
    pool: &mut StakingState,
    user: &mut UserStakeInfo,
    amount: u64,
    now: i64,
) -> (r: Result<u64, ProtocolError>)
    ensures
        emergency_ok(*old(pool), *old(user), amount, now) ==> {
            &&& r == Ok::<u64, ProtocolError>((amount - emergency_penalty(amount)) as u64)
            &&& *final(user) == (UserStakeInfo {
                staked_amount: (old(user).staked_amount - amount) as u64,
                last_emergency_withdraw: now,
                ..*old(user)
            })
            &&& *final(pool) == (StakingState {
                total_staked: (old(pool).total_staked - amount) as u64,
                ..*old(pool)
            })
        },
        !emergency_ok(*old(pool), *old(user), amount, now) ==> {
            &&& r == Err::<u64, ProtocolError>(emergency_err(*old(pool), *old(user), amount, now))
            &&& *final(user) == *old(user)
            &&& *final(pool) == *old(pool)
        },
{
    let since_last: i128 = (now as i128) - (user.last_emergency_withdraw as i128);
    if since_last < pool.emergency_cooldown as i128 {
        return Err(ProtocolError::CooldownPeriodActive);
    }
    if amount > user.staked_amount {
        return Err(ProtocolError::InsufficientBalance);
    }
    if amount > pool.total_staked {
        return Err(ProtocolError::Overflow);
    }
    proof {
        lemma_mul_upper_bound(
            amount as int,
            u64::MAX as int,
            EMERGENCY_WITHDRAWAL_PENALTY as int,
            u64::MAX as int,
        );
        lemma_emergency_penalty_le(amount);
    }
    let penalty: u64 = (((amount as u128) * (EMERGENCY_WITHDRAWAL_PENALTY as u128)) / 100) as u64;
    let payout = amount - penalty;
    user.staked_amount = user.staked_amount - amount;
    user.last_emergency_withdraw = now;
    pool.total_staked = pool.total_staked - amount;
    Ok(payout)
}

impl StakingState {
    /// The reward an arbitrary balance accrues over an elapsed stretch
    /// under this pool's current yield rate.
    pub fn calculate_rewards(&self, amount: u64, time_diff: i64) -> (r: Result<u64, ProtocolError>)
        ensures
            accrue_fits(amount, self.current_apy, time_diff as int) ==> r == Ok::<
                u64,
                ProtocolError,
            >(accrue_amount(amount, self.current_apy, time_diff as int) as u64),
            !accrue_fits(amount, self.current_apy, time_diff as int) ==> r == Err::<
                u64,
                ProtocolError,
            >(ProtocolError::Overflow),
    {
        accrue(amount, self.current_apy, time_diff)
    }
}

} // verus!
