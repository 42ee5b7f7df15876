//! Laws of the accrual, proved over the model that the contracts of the
//! engine and of the callable operations are stated in.

use vstd::prelude::*;
use vstd::arithmetic::div_mod::lemma_div_is_ordered;
use crate::backend::{CheckedUint, FixedPoint128};
use crate::model::{
    accrual, fits_through, last_index, lemma_fits_prefix, partial_sum, ray_mul_value,
    scaled_term, term, HALF_RAY, RAY,
};
use crate::program::repeated;
use crate::wide::{FixedPoint128Wide, FixedPoint256Wide};

verus! {

/// At rate zero every term is zero and every partial sum is one ray.
proof fn lemma_zero_rate_terms(elapsed: nat, k: nat)
    ensures
        term(0, elapsed, k) == 0,
        scaled_term(0, elapsed, k) == 0,
        partial_sum(0, elapsed, k) == RAY,
    decreases k,
{
    if k == 0 {
        assert(0nat * elapsed == 0) by (nonlinear_arith);
    } else {
        lemma_zero_rate_terms(elapsed, (k - 1) as nat);
        let rest = (elapsed - k) as nat;
        assert(0nat * rest == 0) by (nonlinear_arith);
        assert(0nat * 0nat == 0) by (nonlinear_arith);
        assert(ray_mul_value(0, 0) == 0);
        assert(0nat / ((k + 1) as nat) == 0) by (nonlinear_arith);
    }
}

/// At rate zero every step fits any representation that holds one ray.
proof fn lemma_zero_rate_fits(elapsed: nat, k: nat, max: nat)
    requires
        max >= RAY,
    ensures
        fits_through(0, elapsed, k, max),
    decreases k,
{
    lemma_zero_rate_terms(elapsed, k);
    assert(0nat * elapsed == 0) by (nonlinear_arith);
    assert(0nat * 0nat == 0) by (nonlinear_arith);
    if k > 0 {
        lemma_zero_rate_fits(elapsed, (k - 1) as nat, max);
    }
}

/// The partial sums never fall as terms are added.
proof fn lemma_partial_sum_grows(rate: nat, elapsed: nat, lo: nat, hi: nat)
    requires
        lo <= hi,
    ensures
        RAY <= partial_sum(rate, elapsed, lo) <= partial_sum(rate, elapsed, hi),
    decreases hi,
{
    if lo < hi {
        lemma_partial_sum_grows(rate, elapsed, lo, (hi - 1) as nat);
    } else if lo > 0 {
        lemma_partial_sum_grows(rate, elapsed, 0, (lo - 1) as nat);
    }
}

/// Over a longer time no term that the shorter time takes is smaller, nor
/// the product it is formed from, nor the sum through it.
proof fn lemma_terms_grow_with_time(rate: nat, shorter: nat, longer: nat, k: nat)
    requires
        shorter <= longer,
        k <= last_index(shorter),
    ensures
        term(rate, shorter, k) <= term(rate, longer, k),
        scaled_term(rate, shorter, k) <= scaled_term(rate, longer, k),
        partial_sum(rate, shorter, k) <= partial_sum(rate, longer, k),
    decreases k,
{
    if k == 0 {
        assert(rate * shorter <= rate * longer) by (nonlinear_arith)
            requires
                shorter <= longer,
        ;
    } else {
        let j = (k - 1) as nat;
        lemma_terms_grow_with_time(rate, shorter, longer, j);
        let t1 = term(rate, shorter, j);
        let t2 = term(rate, longer, j);
        let d1 = (shorter - k) as nat;
        let d2 = (longer - k) as nat;
        assert(t1 * d1 <= t2 * d2) by (nonlinear_arith)
            requires
                t1 <= t2,
                d1 <= d2,
        ;
        let s1 = scaled_term(rate, shorter, k);
        let s2 = scaled_term(rate, longer, k);
        assert(s1 * rate <= s2 * rate) by (nonlinear_arith)
            requires
                s1 <= s2,
        ;
        lemma_div_is_ordered(
            (s1 * rate + HALF_RAY as nat) as int,
            (s2 * rate + HALF_RAY as nat) as int,
            RAY as int,
        );
        lemma_div_is_ordered(
            ray_mul_value(s1, rate) as int,
            ray_mul_value(s2, rate) as int,
            (k + 1) as int,
        );
    }
}

/// Where the steps through `k` fit over a longer time, they fit over a
/// shorter time that takes the term of index `k`.
proof fn lemma_fits_shorter_time(rate: nat, shorter: nat, longer: nat, k: nat, max: nat)
    requires
        shorter <= longer,
        k <= last_index(shorter),
        fits_through(rate, longer, k, max),
    ensures
        fits_through(rate, shorter, k, max),
    decreases k,
{
    lemma_terms_grow_with_time(rate, shorter, longer, k);
    if k == 0 {
        assert(rate * shorter <= rate * longer) by (nonlinear_arith)
            requires
                shorter <= longer,
        ;
    } else {
        let s1 = scaled_term(rate, shorter, k);
        let s2 = scaled_term(rate, longer, k);
        assert(s1 * rate <= s2 * rate) by (nonlinear_arith)
            requires
                s1 <= s2,
        ;
        lemma_fits_shorter_time(rate, shorter, longer, (k - 1) as nat, max);
    }
}

/// Steps that fit under one limit fit under any larger one.
proof fn lemma_fits_larger_limit(rate: nat, elapsed: nat, k: nat, narrow: nat, wide: nat)
    requires
        narrow <= wide,
        fits_through(rate, elapsed, k, narrow),
    ensures
        fits_through(rate, elapsed, k, wide),
    decreases k,
{
    if k > 0 {
        lemma_fits_larger_limit(rate, elapsed, (k - 1) as nat, narrow, wide);
    }
}

/// No interest accrues over a time that is not positive: where the current
/// timestamp does not lie after the last update, the multiplier is exactly
/// one ray, at any rate, in any representation that holds one ray.
pub proof fn lemma_neutral_time(rate: nat, last_update: nat, current: nat, max: nat)
    requires
        current <= last_update,
        max >= RAY,
    ensures
        accrual(rate, last_update, current, max) == Some(RAY as nat),
{
    assert(rate * 0nat == 0) by (nonlinear_arith);
}

/// A zero rate gives no growth: the multiplier is exactly one ray whatever
/// the two timestamps are.
pub proof fn lemma_zero_rate(last_update: nat, current: nat, max: nat)
    requires
        max >= RAY,
    ensures
        accrual(0, last_update, current, max) == Some(RAY as nat),
{
    if current >= last_update {
        let elapsed = (current - last_update) as nat;
        lemma_zero_rate_fits(elapsed, last_index(elapsed), max);
        lemma_zero_rate_terms(elapsed, last_index(elapsed));
    }
}

/// An accrual that succeeds under one limit succeeds under every larger
/// limit, with the same multiplier: the value does not depend on how much
/// headroom the representation has.
pub proof fn lemma_wider_limit_agrees(
    rate: nat,
    last_update: nat,
    current: nat,
    narrow: nat,
    wide: nat,
)
    requires
        narrow <= wide,
        accrual(rate, last_update, current, narrow) is Some,
    ensures
        accrual(rate, last_update, current, wide) == accrual(rate, last_update, current, narrow),
{
    if current >= last_update {
        let elapsed = (current - last_update) as nat;
        lemma_fits_larger_limit(rate, elapsed, last_index(elapsed), narrow, wide);
    }
}

/// The three backends agree. On every input the native and the two-limb
/// backend have the same outcome, failures included. Wherever the native
/// backend succeeds, the four-limb backend succeeds with the same
/// multiplier; it may still succeed where the 128-bit ones overflow.
pub proof fn lemma_backends_agree(rate: u128, last_update: u128, current: u128)
    ensures
        accrual(rate as nat, last_update as nat, current as nat, FixedPoint128Wide::limit())
            == accrual(rate as nat, last_update as nat, current as nat, FixedPoint128::limit()),
        accrual(rate as nat, last_update as nat, current as nat, FixedPoint128::limit()) is Some
            ==> accrual(
            rate as nat,
            last_update as nat,
            current as nat,
            FixedPoint256Wide::limit(),
        ) == accrual(rate as nat, last_update as nat, current as nat, FixedPoint128::limit()),
{
    if accrual(rate as nat, last_update as nat, current as nat, FixedPoint128::limit()) is Some {
        lemma_wider_limit_agrees(
            rate as nat,
            last_update as nat,
            current as nat,
            FixedPoint128::limit(),
            FixedPoint256Wide::limit(),
        );
    }
}

/// The multiplier never falls as time advances: where the accrual up to a
/// later timestamp succeeds, the accrual up to any earlier one succeeds too,
/// and its multiplier is no greater.
pub proof fn lemma_monotone_in_time(
    rate: nat,
    last_update: nat,
    earlier: nat,
    later: nat,
    max: nat,
)
    requires
        earlier <= later,
        accrual(rate, last_update, later, max) is Some,
    ensures
        accrual(rate, last_update, earlier, max) is Some,
        accrual(rate, last_update, earlier, max)->Some_0 <= accrual(
            rate,
            last_update,
            later,
            max,
        )->Some_0,
{
    if later >= last_update {
        let longer = (later - last_update) as nat;
        lemma_partial_sum_grows(rate, longer, 0, last_index(longer));
        if earlier >= last_update {
            let shorter = (earlier - last_update) as nat;
            let k = last_index(shorter);
            lemma_fits_prefix(rate, longer, k, last_index(longer), max);
            lemma_fits_shorter_time(rate, shorter, longer, k, max);
            lemma_terms_grow_with_time(rate, shorter, longer, k);
            lemma_partial_sum_grows(rate, longer, k, last_index(longer));
        }
    }
}

/// An accrual whose linear term `rate * elapsed` exceeds the limit fails: it
/// never wraps.
pub proof fn lemma_linear_term_overflow(rate: nat, last_update: nat, current: nat, max: nat)
    requires
        current >= last_update,
        rate * ((current - last_update) as nat) > max,
    ensures
        accrual(rate, last_update, current, max) is None,
{
    let elapsed = (current - last_update) as nat;
    if fits_through(rate, elapsed, last_index(elapsed), max) {
        lemma_fits_prefix(rate, elapsed, 0, last_index(elapsed), max);
    }
}

/// The count only repeats the work: any positive number of repetitions
/// reports what a single run reports.
pub proof fn lemma_repetition(count: u32, single: Option<nat>)
    requires
        count >= 1,
    ensures
        repeated(count, single) == repeated(1, single),
{
}

} // verus!
