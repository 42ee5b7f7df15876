//! The mathematical model of the accrual series, over natural numbers.
//!
//! Nothing here depends on an integer representation. The series is defined
//! on unbounded naturals; a separate predicate says whether every
//! intermediate quantity of the computation stays within a given largest
//! representable value.

use vstd::prelude::*;

verus! {

/// The fixed-point scale: the integer that stands for 1.0.
pub const RAY: u128 = 1000000000000000000000000000;

/// Half the scale, added before the rescaling division to round to nearest.
pub const HALF_RAY: u128 = 500000000000000000000000000;

/// The one way an accrual can fail.
#[derive(Clone, Copy, Debug, PartialEq, Eq, Structural)]
pub enum AccrualError {
    /// An intermediate quantity exceeded the representation's largest value.
    Overflow,
}

/// The product of two ray-scaled numbers, scaled back by one ray and rounded
/// to nearest (half up).
pub open spec fn ray_mul_value(a: nat, b: nat) -> nat {
    (a * b + HALF_RAY as nat) / (RAY as nat)
}

/// Whether the rounded product can be formed without exceeding `max`: a
/// zero operand needs no arithmetic, and otherwise the product plus half a
/// ray has to fit.
pub open spec fn ray_mul_fits(a: nat, b: nat, max: nat) -> bool {
    a == 0 || b == 0 || a * b + HALF_RAY as nat <= max
}

/// The result of a checked ray multiplication under the bound `max`.
pub open spec fn ray_mul_checked(a: nat, b: nat, max: nat) -> Option<nat> {
    if ray_mul_fits(a, b, max) {
        Some(ray_mul_value(a, b))
    } else {
        None
    }
}

/// The term of index `k` of the series: `rate * elapsed` for `k == 0`, and
/// from then on the previous term times `elapsed - k`, ray-multiplied by the
/// rate and divided by `k + 1`.
pub open spec fn term(rate: nat, elapsed: nat, k: nat) -> nat
    decreases k,
{
    if k == 0 {
        rate * elapsed
    } else {
        ray_mul_value(scaled_term(rate, elapsed, k), rate) / (k + 1)
    }
}

/// The previous term times the remaining exponent, the left operand of the
/// ray multiplication that yields term `k` (for `k >= 1`).
pub open spec fn scaled_term(rate: nat, elapsed: nat, k: nat) -> nat
    decreases k, 0nat,
{
    if k == 0 {
        0
    } else {
        term(rate, elapsed, (k - 1) as nat) * ((elapsed - k) as nat)
    }
}

/// One ray plus the terms of index `0` through `k`.
pub open spec fn partial_sum(rate: nat, elapsed: nat, k: nat) -> nat
    decreases k,
{
    if k == 0 {
        RAY as nat + term(rate, elapsed, 0)
    } else {
        partial_sum(rate, elapsed, (k - 1) as nat) + term(rate, elapsed, k)
    }
}

/// The index of the last term that enters the sum: a term of index `k >= 1`
/// is taken only while `elapsed > k`, and never beyond the quartic one.
pub open spec fn last_index(elapsed: nat) -> nat {
    if elapsed == 0 {
        0
    } else if elapsed > 4 {
        4
    } else {
        (elapsed - 1) as nat
    }
}

/// Whether every quantity formed on the way to term `k` and to the sum that
/// includes it stays within `max`.
pub open spec fn step_fits(rate: nat, elapsed: nat, k: nat, max: nat) -> bool {
    if k == 0 {
        RAY as nat + rate * elapsed <= max
    } else {
        &&& scaled_term(rate, elapsed, k) <= max
        &&& ray_mul_fits(scaled_term(rate, elapsed, k), rate, max)
        &&& partial_sum(rate, elapsed, k) <= max
    }
}

/// Whether steps `0` through `k` all fit.
pub open spec fn fits_through(rate: nat, elapsed: nat, k: nat, max: nat) -> bool
    decreases k,
{
    step_fits(rate, elapsed, k, max) && (k == 0 || fits_through(
        rate,
        elapsed,
        (k - 1) as nat,
        max,
    ))
}

/// The multiplier accrued over `elapsed` seconds, as a ray-scaled natural.
pub open spec fn accrued(rate: nat, elapsed: nat) -> nat {
    partial_sum(rate, elapsed, last_index(elapsed))
}

/// The outcome of an accrual between two timestamps in a representation
/// whose largest value is `max`: one ray when the clock has not advanced,
/// the accrued multiplier when every step fits, nothing otherwise.
pub open spec fn accrual(rate: nat, last_update: nat, current: nat, max: nat) -> Option<nat> {
    if current < last_update {
        Some(RAY as nat)
    } else {
        let elapsed = (current - last_update) as nat;
        if fits_through(rate, elapsed, last_index(elapsed), max) {
            Some(accrued(rate, elapsed))
        } else {
            None
        }
    }
}

/// If the steps through `hi` fit, so do the steps through any `lo <= hi`.
pub proof fn lemma_fits_prefix(rate: nat, elapsed: nat, lo: nat, hi: nat, max: nat)
    requires
        lo <= hi,
        fits_through(rate, elapsed, hi, max),
    ensures
        fits_through(rate, elapsed, lo, max),
    decreases hi,
{
    if lo < hi {
        lemma_fits_prefix(rate, elapsed, lo, (hi - 1) as nat, max);
    }
}

} // verus!
