//! Reward accrual arithmetic.
//!
//! The owed yield of a staked balance is
//! `amount * rate_bps * elapsed / (seconds_per_year * 100)`, computed in a
//! widened integer type and truncated toward zero, plus a tenure bonus of
//! one tenth of the base reward once the elapsed time exceeds thirty days.
//! A non-positive elapsed time accrues nothing. Any intermediate value
//! outside the widened range, or a total outside the ledger's amount
//! width, is rejected with `Overflow`.

use vstd::arithmetic::div_mod::{
    lemma_div_is_ordered, lemma_div_nonincreasing, lemma_div_pos_is_pos, lemma_remainder,
    lemma_remainder_lower,
};
use vstd::arithmetic::mul::{
    lemma_mul_inequality, lemma_mul_is_commutative, lemma_mul_is_distributive_add_other_way,
    lemma_mul_left_inequality, lemma_mul_nonnegative, lemma_mul_upper_bound,
};
use vstd::prelude::*;

use crate::errors::ProtocolError;

verus! {

/// Seconds in the 365-day year the yield rate is quoted over.
pub const SECONDS_PER_YEAR: u64 = 31_536_000;

/// Divisor of the base reward: a full year of seconds times the 100 that
/// turns basis points per hundred into a plain fraction.
pub const RATE_DIVISOR: u64 = 31_536_000 * 100;

/// Elapsed seconds beyond which the tenure bonus applies (thirty days).
pub const TENURE_BONUS_THRESHOLD: i64 = 30 * 24 * 60 * 60;

/// The base reward before any bonus, truncated toward zero.
pub open spec fn accrue_base(staked_amount: u64, rate_bps: u64, elapsed: int) -> int {
    staked_amount * rate_bps * elapsed / (RATE_DIVISOR as int)
}

/// The full reward owed: zero for a non-positive elapsed time, the base
/// reward otherwise, plus one tenth of the base once the elapsed time
/// exceeds the tenure threshold.
pub open spec fn accrue_amount(staked_amount: u64, rate_bps: u64, elapsed: int) -> int {
    if elapsed <= 0 {
        0
    } else {
        let base = accrue_base(staked_amount, rate_bps, elapsed);
        if elapsed > TENURE_BONUS_THRESHOLD {
            base + base * 10 / 100
        } else {
            base
        }
    }
}

/// Whether the accrual computation stays inside the widened integer type
/// and the resulting reward fits the ledger's amount width.
pub open spec fn accrue_fits(staked_amount: u64, rate_bps: u64, elapsed: int) -> bool {
    elapsed <= 0 || (staked_amount * rate_bps * elapsed <= u128::MAX && accrue_amount(
        staked_amount,
        rate_bps,
        elapsed,
    ) <= u64::MAX)
}

/// A factor above `m / a` pushes the product above `m`.
proof fn lemma_exceeds_quotient(a: int, b: int, m: int)
    requires
        0 < a,
        0 <= m,
        m / a < b,
    ensures
        m < a * b,
{
    lemma_remainder(m, a);
    lemma_mul_inequality(m / a + 1, b, a);
    lemma_mul_is_distributive_add_other_way(a, m / a, 1);
    lemma_mul_is_commutative(a, b);
}

/// A factor at or below `m / a` keeps the product at or below `m`.
proof fn lemma_within_quotient(a: int, b: int, m: int)
    requires
        0 < a,
        0 <= m,
        0 <= b <= m / a,
    ensures
        a * b <= m,
{
    lemma_remainder_lower(m, a);
    lemma_mul_inequality(b, m / a, a);
    lemma_mul_is_commutative(a, b);
}

/// The base reward is never negative.
proof fn lemma_accrue_base_nonneg(staked_amount: u64, rate_bps: u64, elapsed: int)
    requires
        elapsed >= 0,
    ensures
        accrue_base(staked_amount, rate_bps, elapsed) >= 0,
{
    lemma_mul_nonnegative(staked_amount as int, rate_bps as int);
    lemma_mul_nonnegative(staked_amount * rate_bps, elapsed);
    lemma_div_pos_is_pos(staked_amount * rate_bps * elapsed, RATE_DIVISOR as int);
}

/// The base reward grows with the elapsed time.
proof fn lemma_accrue_base_monotone(staked_amount: u64, rate_bps: u64, t1: int, t2: int)
    requires
        0 <= t1 <= t2,
    ensures
        accrue_base(staked_amount, rate_bps, t1) <= accrue_base(staked_amount, rate_bps, t2),
{
    lemma_mul_nonnegative(staked_amount as int, rate_bps as int);
    lemma_mul_inequality(t1, t2, staked_amount * rate_bps);
    lemma_mul_is_commutative(staked_amount * rate_bps, t1);
    lemma_mul_is_commutative(staked_amount * rate_bps, t2);
    lemma_div_is_ordered(
        staked_amount * rate_bps * t1,
        staked_amount * rate_bps * t2,
        RATE_DIVISOR as int,
    );
}

/// The accrued reward is never negative.
pub proof fn lemma_accrue_amount_nonneg(staked_amount: u64, rate_bps: u64, elapsed: int)
    ensures
        accrue_amount(staked_amount, rate_bps, elapsed) >= 0,
{
    if elapsed > 0 {
        lemma_accrue_base_nonneg(staked_amount, rate_bps, elapsed);
        let base = accrue_base(staked_amount, rate_bps, elapsed);
        lemma_mul_nonnegative(base, 10);
        lemma_div_pos_is_pos(base * 10, 100);
    }
}

/// Reward monotonicity: over the same balance and rate, a longer elapsed
/// time never accrues less.
pub proof fn lemma_accrue_monotone(staked_amount: u64, rate_bps: u64, t1: int, t2: int)
    requires
        0 <= t1 <= t2,
    ensures
        accrue_amount(staked_amount, rate_bps, t1) <= accrue_amount(staked_amount, rate_bps, t2),
{
    lemma_accrue_base_nonneg(staked_amount, rate_bps, t1);
    lemma_accrue_base_nonneg(staked_amount, rate_bps, t2);
    let base1 = accrue_base(staked_amount, rate_bps, t1);
    let base2 = accrue_base(staked_amount, rate_bps, t2);
    lemma_accrue_base_monotone(staked_amount, rate_bps, t1, t2);
    lemma_mul_inequality(base1, base2, 10);
    lemma_div_is_ordered(base1 * 10, base2 * 10, 100);
    lemma_mul_nonnegative(base2, 10);
    lemma_div_pos_is_pos(base2 * 10, 100);
}

/// The computed reward for a staked balance over an elapsed stretch.
///
/// Exactly `accrue_amount` whenever that value is representable, and
/// `Overflow` otherwise.
pub fn accrue(staked_amount: u64, rate_bps: u64, elapsed_seconds: i64) -> (r: Result<
    u64,
    ProtocolError,
>)
    ensures
        accrue_fits(staked_amount, rate_bps, elapsed_seconds as int) ==> r == Ok::<
            u64,
            ProtocolError,
        >(accrue_amount(staked_amount, rate_bps, elapsed_seconds as int) as u64),
        !accrue_fits(staked_amount, rate_bps, elapsed_seconds as int) ==> r == Err::<
            u64,
            ProtocolError,
        >(ProtocolError::Overflow),
{
    if elapsed_seconds <= 0 {
        return Ok(0);
    }
    proof {
        lemma_mul_upper_bound(
            staked_amount as int,
            u64::MAX as int,
            rate_bps as int,
            u64::MAX as int,
        );
    }
    let scaled: u128 = (staked_amount as u128) * (rate_bps as u128);
    let e: u128 = elapsed_seconds as u128;
    if scaled != 0 && e > u128::MAX / scaled {
        proof {
            lemma_exceeds_quotient(scaled as int, e as int, u128::MAX as int);
        }
        return Err(ProtocolError::Overflow);
    }
    proof {
        if scaled != 0 {
            lemma_within_quotient(scaled as int, e as int, u128::MAX as int);
        }
    }
    let product: u128 = scaled * e;
    let base: u128 = product / (RATE_DIVISOR as u128);
    let total: u128 = if elapsed_seconds > TENURE_BONUS_THRESHOLD {
        proof {
            lemma_div_pos_is_pos(product as int, RATE_DIVISOR as int);
            if base > 0 {
                lemma_mul_left_inequality(base as int, 10, RATE_DIVISOR as int);
                lemma_mul_left_inequality(base as int, 11, RATE_DIVISOR as int);
                lemma_remainder_lower(product as int, RATE_DIVISOR as int);
                lemma_mul_is_commutative(base as int, RATE_DIVISOR as int);
            }
            lemma_mul_nonnegative(base as int, 10);
            lemma_div_nonincreasing(base as int * 10, 100);
            lemma_div_pos_is_pos(base as int * 10, 100);
            assert(base as int * 11 == base as int * 10 + base as int) by {
                vstd::arithmetic::mul::lemma_mul_is_distributive_add(base as int, 10, 1);
            }
        }
        base + (base * 10) / 100
    } else {
        base
    };
    if total > u64::MAX as u128 {
        return Err(ProtocolError::Overflow);
    }
    Ok(total as u64)
}

} // verus!
