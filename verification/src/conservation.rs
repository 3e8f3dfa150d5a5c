//! Conservation of staked value.
//!
//! The pool invariant is `total_staked == Σ user.staked_amount` over all
//! stake records. Every ledger operation touches the pool total and at
//! most two records, and moves them by matching deltas; the lemmas here
//! show that any such step preserves the invariant, so it holds after
//! every sequence of operations that starts from a conserving state.

use vstd::prelude::*;

use crate::staking::{StakingState, UserStakeInfo};

verus! {

/// Sum of the staked amounts of a set of stake records.
pub open spec fn sum_staked(users: Seq<UserStakeInfo>) -> int
    decreases users.len(),
{
    if users.len() == 0 {
        0
    } else {
        sum_staked(users.drop_last()) + users.last().staked_amount
    }
}

/// The conservation invariant: the pool total equals the sum of all
/// staked amounts.
pub open spec fn conserves(pool: StakingState, users: Seq<UserStakeInfo>) -> bool {
    pool.total_staked == sum_staked(users)
}

/// Replacing one record moves the sum by the difference of its staked
/// amounts.
proof fn lemma_sum_staked_update(users: Seq<UserStakeInfo>, i: int, u: UserStakeInfo)
    requires
        0 <= i < users.len(),
    ensures
        sum_staked(users.update(i, u)) == sum_staked(users) + u.staked_amount
            - users[i].staked_amount,
    decreases users.len(),
{
    let t = users.update(i, u);
    if i == users.len() - 1 {
        assert(t.drop_last() =~= users.drop_last());
    } else {
        assert(t.drop_last() =~= users.drop_last().update(i, u));
        lemma_sum_staked_update(users.drop_last(), i, u);
    }
}

/// Conservation under a single-record operation: when an operation moves
/// the pool total and one principal's staked amount by the same delta —
/// as stake, unstake, compound and emergency withdrawal do — the pool
/// total still equals the sum of all staked amounts.
pub proof fn lemma_conservation_single(
    pool0: StakingState,
    pool1: StakingState,
    users: Seq<UserStakeInfo>,
    i: int,
    u: UserStakeInfo,
)
    requires
        conserves(pool0, users),
        0 <= i < users.len(),
        pool1.total_staked - pool0.total_staked == u.staked_amount - users[i].staked_amount,
    ensures
        conserves(pool1, users.update(i, u)),
{
    lemma_sum_staked_update(users, i, u);
}

/// Conservation under delegation: a delegation moves staked value from
/// one principal to another and leaves the pool total untouched, so the
/// sum of all staked amounts is unchanged.
pub proof fn lemma_conservation_delegate(
    pool: StakingState,
    users: Seq<UserStakeInfo>,
    i: int,
    j: int,
    ui: UserStakeInfo,
    uj: UserStakeInfo,
)
    requires
        conserves(pool, users),
        0 <= i < users.len(),
        0 <= j < users.len(),
        i != j,
        ui.staked_amount - users[i].staked_amount + uj.staked_amount - users[j].staked_amount
            == 0,
    ensures
        conserves(pool, users.update(i, ui).update(j, uj)),
{
    lemma_sum_staked_update(users, i, ui);
    lemma_sum_staked_update(users.update(i, ui), j, uj);
}

} // verus!
