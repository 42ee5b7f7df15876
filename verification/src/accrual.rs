//! The accrual engine: checked ray multiplication and the series itself,
//! written once over any `CheckedUint` and instantiated per backend.

use vstd::prelude::*;
use crate::backend::{CheckedUint, FixedPoint128};
use crate::wide::{FixedPoint128Wide, FixedPoint256Wide};
use crate::model::{
    accrual, fits_through, last_index, lemma_fits_prefix, partial_sum, ray_mul_checked, term,
    AccrualError,
};

verus! {

/// Multiplies two ray-scaled numbers and scales the product back by one ray,
/// rounding to nearest. A zero operand gives zero without multiplying.
/// Returns `None` exactly where the product plus half a ray exceeds the
/// backend's limit.
pub fn ray_mul<T: CheckedUint>(a: T, b: T) -> (r: Option<T>)
    ensures
        match r {
            Some(v) => ray_mul_checked(a.value(), b.value(), T::limit()) == Some(v.value()),
            None => ray_mul_checked(a.value(), b.value(), T::limit()) is None,
        },
{
    if a.is_zero() || b.is_zero() {
        let zero = T::from_u128(0);
        assert(a.value() * b.value() == 0) by (nonlinear_arith)
            requires
                a.value() == 0 || b.value() == 0,
        ;
        return Some(zero);
    }
    let product = match a.checked_mul(b) {
        Some(p) => p,
        None => {
            return None;
        },
    };
    let rounded = match product.checked_add(T::half_ray()) {
        Some(s) => s,
        None => {
            return None;
        },
    };
    proof {
        rounded.lemma_value_within_limit();
    }
    rounded.checked_div(T::ray())
}

/// The multiplier accrued at `rate` per second between two timestamps.
///
/// Returns one ray when `current_timestamp` lies before
/// `last_update_timestamp`. Otherwise returns the series value when every
/// intermediate quantity fits the backend, and `AccrualError::Overflow` as
/// soon as one does not.
pub fn compound<T: CheckedUint>(rate: T, last_update_timestamp: T, current_timestamp: T) -> (r:
    Result<T, AccrualError>)
    ensures
        match r {
            Ok(v) => accrual(
                rate.value(),
                last_update_timestamp.value(),
                current_timestamp.value(),
                T::limit(),
            ) == Some(v.value()),
            Err(e) => e == AccrualError::Overflow && accrual(
                rate.value(),
                last_update_timestamp.value(),
                current_timestamp.value(),
                T::limit(),
            ) is None,
        },
{
    let one = T::ray();
    let exp = match current_timestamp.checked_sub(last_update_timestamp) {
        Some(exp) => exp,
        None => {
            return Ok(one);
        },
    };
    let ghost x = rate.value();
    let ghost n = exp.value();
    let ghost max = T::limit();
    let mut el = match rate.checked_mul(exp) {
        Some(el) => el,
        None => {
            proof {
                if fits_through(x, n, last_index(n), max) {
                    lemma_fits_prefix(x, n, 0, last_index(n), max);
                }
            }
            return Err(AccrualError::Overflow);
        },
    };
    let mut result = match one.checked_add(el) {
        Some(sum) => sum,
        None => {
            proof {
                if fits_through(x, n, last_index(n), max) {
                    lemma_fits_prefix(x, n, 0, last_index(n), max);
                }
            }
            return Err(AccrualError::Overflow);
        },
    };
    proof {
        result.lemma_value_within_limit();
    }
    let mut i: u128 = 1;
    while i < 5
        invariant
            1 <= i <= 5,
            x == rate.value(),
            n == exp.value(),
            max == T::limit(),
            current_timestamp.value() >= last_update_timestamp.value(),
            n == current_timestamp.value() - last_update_timestamp.value(),
            i - 1 <= last_index(n),
            el.value() == term(x, n, (i - 1) as nat),
            result.value() == partial_sum(x, n, (i - 1) as nat),
            fits_through(x, n, (i - 1) as nat, max),
        ensures
            1 <= i <= 5,
            i - 1 == last_index(n),
            result.value() == partial_sum(x, n, (i - 1) as nat),
            fits_through(x, n, (i - 1) as nat, max),
        decreases 5 - i,
    {
        let index = T::from_u128(i);
        if exp.at_most(&index) {
            break ;
        }
        proof {
            if fits_through(x, n, last_index(n), max) {
                lemma_fits_prefix(x, n, i as nat, last_index(n), max);
            }
        }
        // `exp` exceeds `index` here, so the difference exists.
        let remaining = match exp.checked_sub(index) {
            Some(d) => d,
            None => {
                return Err(AccrualError::Overflow);
            },
        };
        let scaled = match el.checked_mul(remaining) {
            Some(p) => p,
            None => {
                return Err(AccrualError::Overflow);
            },
        };
        proof {
            scaled.lemma_value_within_limit();
        }
        let product = match ray_mul(scaled, rate) {
            Some(p) => p,
            None => {
                return Err(AccrualError::Overflow);
            },
        };
        el = match product.checked_div(T::from_u128(i + 1)) {
            Some(q) => q,
            None => {
                return Err(AccrualError::Overflow);
            },
        };
        result = match result.checked_add(el) {
            Some(sum) => sum,
            None => {
                return Err(AccrualError::Overflow);
            },
        };
        proof {
            result.lemma_value_within_limit();
        }
        i += 1;
    }
    Ok(result)
}

/// Ray multiplication on the native 128-bit backend.
pub fn raymul_u128_native(a: u128, b: u128) -> (r: Option<u128>)
    ensures
        match r {
            Some(v) => ray_mul_checked(a as nat, b as nat, u128::MAX as nat) == Some(v as nat),
            None => ray_mul_checked(a as nat, b as nat, u128::MAX as nat) is None,
        },
{
    match ray_mul(FixedPoint128 { raw: a }, FixedPoint128 { raw: b }) {
        Some(v) => Some(v.raw),
        None => None,
    }
}

/// The accrued multiplier on the native 128-bit backend.
pub fn calc_u128_native(rate: u128, last_update_timestamp: u128, current_timestamp: u128) -> (r:
    Result<u128, AccrualError>)
    ensures
        match r {
            Ok(v) => accrual(
                rate as nat,
                last_update_timestamp as nat,
                current_timestamp as nat,
                u128::MAX as nat,
            ) == Some(v as nat),
            Err(e) => e == AccrualError::Overflow && accrual(
                rate as nat,
                last_update_timestamp as nat,
                current_timestamp as nat,
                u128::MAX as nat,
            ) is None,
        },
{
    match compound(
        FixedPoint128 { raw: rate },
        FixedPoint128 { raw: last_update_timestamp },
        FixedPoint128 { raw: current_timestamp },
    ) {
        Ok(v) => Ok(v.raw),
        Err(e) => Err(e),
    }
}

/// Ray multiplication on the two-limb 128-bit backend.
pub fn raymul_u128_uint(a: FixedPoint128Wide, b: FixedPoint128Wide) -> (r: Option<FixedPoint128Wide>)
    ensures
        match r {
            Some(v) => ray_mul_checked(a.value(), b.value(), FixedPoint128Wide::limit()) == Some(v.value()),
            None => ray_mul_checked(a.value(), b.value(), FixedPoint128Wide::limit()) is None,
        },
{
    ray_mul(a, b)
}

/// The accrued multiplier on the two-limb 128-bit backend.
pub fn calc_u128_uint(
    rate: FixedPoint128Wide,
    last_update_timestamp: FixedPoint128Wide,
    current_timestamp: FixedPoint128Wide,
) -> (r: Result<FixedPoint128Wide, AccrualError>)
    ensures
        match r {
            Ok(v) => accrual(
                rate.value(),
                last_update_timestamp.value(),
                current_timestamp.value(),
                FixedPoint128Wide::limit(),
            ) == Some(v.value()),
            Err(e) => e == AccrualError::Overflow && accrual(
                rate.value(),
                last_update_timestamp.value(),
                current_timestamp.value(),
                FixedPoint128Wide::limit(),
            ) is None,
        },
{
    compound(rate, last_update_timestamp, current_timestamp)
}

/// Ray multiplication on the four-limb 256-bit backend.
pub fn raymul_u256_uint(a: FixedPoint256Wide, b: FixedPoint256Wide) -> (r: Option<FixedPoint256Wide>)
    ensures
        match r {
            Some(v) => ray_mul_checked(a.value(), b.value(), FixedPoint256Wide::limit()) == Some(v.value()),
            None => ray_mul_checked(a.value(), b.value(), FixedPoint256Wide::limit()) is None,
        },
{
    ray_mul(a, b)
}

/// The accrued multiplier on the four-limb 256-bit backend.
pub fn calc_u256_uint(
    rate: FixedPoint256Wide,
    last_update_timestamp: FixedPoint256Wide,
    current_timestamp: FixedPoint256Wide,
) -> (r: Result<FixedPoint256Wide, AccrualError>)
    ensures
        match r {
            Ok(v) => accrual(
                rate.value(),
                last_update_timestamp.value(),
                current_timestamp.value(),
                FixedPoint256Wide::limit(),
            ) == Some(v.value()),
            Err(e) => e == AccrualError::Overflow && accrual(
                rate.value(),
                last_update_timestamp.value(),
                current_timestamp.value(),
                FixedPoint256Wide::limit(),
            ) is None,
        },
{
    compound(rate, last_update_timestamp, current_timestamp)
}

} // verus!
