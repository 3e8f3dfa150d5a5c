//! Bonding: fixed-term locked positions with a maturity-gated payout.
//!
//! Each bond class fixes a lock duration and a payout bonus in basis
//! points of the principal; the bonus is a deterministic function of
//! class and amount, not time-prorated.

use vstd::arithmetic::div_mod::{
    lemma_div_by_multiple, lemma_div_is_ordered, lemma_div_pos_is_pos,
};
use vstd::arithmetic::mul::{
    lemma_mul_inequality, lemma_mul_is_commutative, lemma_mul_nonnegative, lemma_mul_upper_bound,
};
use vstd::prelude::*;

use crate::errors::ProtocolError;

verus! {

/// The closed set of bond classes.
#[derive(Clone, Copy, Debug, PartialEq, Eq, Structural)]
pub enum BondType {
    /// Seven-day lock.
    Short,
    /// Thirty-day lock.
    Medium,
    /// Ninety-day lock.
    Long,
}

/// Basis points a bond reward is quoted in.
pub const BOND_REWARD_DIVISOR: u64 = 10_000;

/// Lock duration of a bond class, in seconds.
pub open spec fn bond_duration(t: BondType) -> i64 {
    match t {
        BondType::Short => 604_800i64,
        BondType::Medium => 2_592_000i64,
        BondType::Long => 7_776_000i64,
    }
}

/// Payout bonus of a bond class, in basis points of the principal.
pub open spec fn bond_reward_bps(t: BondType) -> u64 {
    match t {
        BondType::Short => 200u64,
        BondType::Medium => 500u64,
        BondType::Long => 1200u64,
    }
}

/// The maturity reward of a bond: the class bonus applied to the
/// principal, truncated toward zero.
pub open spec fn bond_reward(t: BondType, amount: u64) -> int {
    amount * bond_reward_bps(t) / (BOND_REWARD_DIVISOR as int)
}

impl BondType {
    /// The bond class a wire-level class code names, if any.
    pub fn from_code(code: u8) -> (r: Result<BondType, ProtocolError>)
        ensures
            code == 0 ==> r == Ok::<BondType, ProtocolError>(BondType::Short),
            code == 1 ==> r == Ok::<BondType, ProtocolError>(BondType::Medium),
            code == 2 ==> r == Ok::<BondType, ProtocolError>(BondType::Long),
            code > 2 ==> r == Err::<BondType, ProtocolError>(ProtocolError::InvalidBondType),
    {
        if code == 0 {
            Ok(BondType::Short)
        } else if code == 1 {
            Ok(BondType::Medium)
        } else if code == 2 {
            Ok(BondType::Long)
        } else {
            Err(ProtocolError::InvalidBondType)
        }
    }

    /// The lock duration of this class, in seconds.
    pub fn duration(&self) -> (d: i64)
        ensures
            d == bond_duration(*self),
    {
        match self {
            BondType::Short => 604_800,
            BondType::Medium => 2_592_000,
            BondType::Long => 7_776_000,
        }
    }

    /// The payout bonus of this class, in basis points.
    pub fn reward_bps(&self) -> (b: u64)
        ensures
            b == bond_reward_bps(*self),
    {
        match self {
            BondType::Short => 200,
            BondType::Medium => 500,
            BondType::Long => 1200,
        }
    }
}

/// Aggregate bonding state: the total principal currently locked.
#[derive(Clone, Copy, Debug, PartialEq, Eq, Structural)]
pub struct BondingState {
    pub total_bonded: u64,
}

/// One fixed-term locked position.
#[derive(Clone, Copy, Debug, PartialEq, Eq, Structural)]
pub struct BondPosition {
    pub owner: u64,
    pub bond_type: BondType,
    pub amount: u64,
    pub creation_time: i64,
    pub maturation_time: i64,
    pub claimed: bool,
}

/// The maturity reward never exceeds the principal it is quoted on.
pub proof fn lemma_bond_reward_le(t: BondType, amount: u64)
    ensures
        0 <= bond_reward(t, amount) <= amount,
{
    lemma_mul_nonnegative(amount as int, bond_reward_bps(t) as int);
    lemma_div_pos_is_pos(amount * bond_reward_bps(t), BOND_REWARD_DIVISOR as int);
    lemma_mul_inequality(bond_reward_bps(t) as int, BOND_REWARD_DIVISOR as int, amount as int);
    lemma_mul_is_commutative(amount as int, bond_reward_bps(t) as int);
    lemma_mul_is_commutative(amount as int, BOND_REWARD_DIVISOR as int);
    lemma_div_is_ordered(
        amount * bond_reward_bps(t),
        amount * (BOND_REWARD_DIVISOR as int),
        BOND_REWARD_DIVISOR as int,
    );
    lemma_div_by_multiple(amount as int, BOND_REWARD_DIVISOR as int);
}

/// Whether a bond creation is accepted: a positive amount, a maturation
/// time that fits a timestamp, and the locked total still in range.
pub open spec fn create_bond_ok(vault: BondingState, bond_type: BondType, amount: u64, now: i64) -> bool {
    &&& amount > 0
    &&& now + bond_duration(bond_type) <= i64::MAX
    &&& vault.total_bonded + amount <= u64::MAX
}

/// The kind a rejected bond creation fails with.
pub open spec fn create_bond_err(amount: u64) -> ProtocolError {
    if amount == 0 {
        ProtocolError::InvalidBondAmount
    } else {
        ProtocolError::Overflow
    }
}

/// Locks `amount` into a fixed-term bond.
///
/// The position matures one full class duration after `now`, and the
/// locked total grows by exactly the principal. The matching transfer of
/// `amount` into custody is the caller's to perform.
pub fn create_bond(
    vault: &mut BondingState,
    owner: u64,
    bond_type: BondType,
    amount: u64,
    now: i64,
) -> (r: Result<BondPosition, ProtocolError>)
    ensures
        create_bond_ok(*old(vault), bond_type, amount, now) ==> {
            &&& r == Ok::<BondPosition, ProtocolError>(
                (BondPosition {
                    owner,
                    bond_type,
                    amount,
                    creation_time: now,
                    maturation_time: (now + bond_duration(bond_type)) as i64,
                    claimed: false,
                }),
            )
            &&& *final(vault) == (BondingState {
                total_bonded: (old(vault).total_bonded + amount) as u64,
            })
        },
        !create_bond_ok(*old(vault), bond_type, amount, now) ==> {
            &&& r == Err::<BondPosition, ProtocolError>(create_bond_err(amount))
            &&& *final(vault) == *old(vault)
        },
{
    if amount == 0 {
        return Err(ProtocolError::InvalidBondAmount);
    }
    let duration = bond_type.duration();
    if now > i64::MAX - duration {
        return Err(ProtocolError::Overflow);
    }
    if amount > u64::MAX - vault.total_bonded {
        return Err(ProtocolError::Overflow);
    }
    vault.total_bonded = vault.total_bonded + amount;
    Ok(
        BondPosition {
            owner,
            bond_type,
            amount,
            creation_time: now,
            maturation_time: now + duration,
            claimed: false,
        },
    )
}

/// The position a successful claim leaves behind: the same bond, marked
/// claimed.
pub open spec fn claimed_bond(b: BondPosition) -> BondPosition {
    BondPosition { claimed: true, ..b }
}

/// Whether a bond claim is accepted: matured, not yet claimed, the
/// payout representable and the locked total covering the principal.
pub open spec fn claim_bond_ok(b: BondPosition, vault: BondingState, now: i64) -> bool {
    &&& now >= b.maturation_time
    &&& !b.claimed
    &&& b.amount + bond_reward(b.bond_type, b.amount) <= u64::MAX
    &&& b.amount <= vault.total_bonded
}

/// The kind a rejected bond claim fails with.
pub open spec fn claim_bond_err(b: BondPosition, now: i64) -> ProtocolError {
    if now < b.maturation_time {
        ProtocolError::BondNotMature
    } else if b.claimed {
        ProtocolError::BondAlreadyClaimed
    } else {
        ProtocolError::Overflow
    }
}

/// Pays out a matured bond: principal plus the class reward, exactly
/// once.
///
/// Returns the payout the caller must transfer out of custody; the
/// position is marked claimed and the locked total drops by the
/// principal. A position already claimed is rejected with
/// `BondAlreadyClaimed` and nothing changes.
pub fn claim_bond(bond: &mut BondPosition, vault: &mut BondingState, now: i64) -> (r: Result<
    u64,
    ProtocolError,
>)
    ensures
        claim_bond_ok(*old(bond), *old(vault), now) ==> {
            &&& r == Ok::<u64, ProtocolError>(
                (old(bond).amount + bond_reward(old(bond).bond_type, old(bond).amount)) as u64,
            )
            &&& *final(bond) == claimed_bond(*old(bond))
            &&& *final(vault) == (BondingState {
                total_bonded: (old(vault).total_bonded - old(bond).amount) as u64,
            })
        },
        !claim_bond_ok(*old(bond), *old(vault), now) ==> {
            &&& r == Err::<u64, ProtocolError>(claim_bond_err(*old(bond), now))
            &&& *final(bond) == *old(bond)
            &&& *final(vault) == *old(vault)
        },
{
    if now < bond.maturation_time {
        return Err(ProtocolError::BondNotMature);
    }
    if bond.claimed {
        return Err(ProtocolError::BondAlreadyClaimed);
    }
    proof {
        lemma_mul_upper_bound(
            bond.amount as int,
            u64::MAX as int,
            bond_reward_bps(bond.bond_type) as int,
            u64::MAX as int,
        );
        lemma_bond_reward_le(bond.bond_type, bond.amount);
    }
    let bps = bond.bond_type.reward_bps();
    let reward: u64 = (((bond.amount as u128) * (bps as u128)) / (BOND_REWARD_DIVISOR as u128))
        as u64;
    if reward > u64::MAX - bond.amount {
        return Err(ProtocolError::Overflow);
    }
    if bond.amount > vault.total_bonded {
        return Err(ProtocolError::Overflow);
    }
    let payout = bond.amount + reward;
    vault.total_bonded = vault.total_bonded - bond.amount;
    bond.claimed = true;
    Ok(payout)
}

/// A matured bond pays out exactly once: after a successful claim the
/// position is marked claimed, and every further claim at or past
/// maturity — against any vault state and any later clock reading — is
/// rejected with `BondAlreadyClaimed`.
pub proof fn lemma_claim_bond_pays_once(
    b: BondPosition,
    vault: BondingState,
    now: i64,
    vault2: BondingState,
    now2: i64,
)
    requires
        claim_bond_ok(b, vault, now),
        now2 >= b.maturation_time,
    ensures
        !claim_bond_ok(claimed_bond(b), vault2, now2),
        claim_bond_err(claimed_bond(b), now2) == ProtocolError::BondAlreadyClaimed,
{
}

} // verus!
