//! The four callable operations: a no-op and one accrual loop per backend.
//!
//! Each takes an iteration count, a rate and two timestamps as native
//! numbers, converts them to its backend, and runs the accrual `count`
//! times. Only success or failure comes back; the multipliers are dropped.

use vstd::prelude::*;
use crate::accrual::compound;
use crate::backend::{CheckedUint, FixedPoint128};
use crate::model::{accrual, AccrualError};
use crate::wide::{FixedPoint128Wide, FixedPoint256Wide};

verus! {

/// What `count` repetitions of an accrual with outcome `single` report:
/// success when there is nothing to run or the accrual succeeds, overflow
/// otherwise. The count repeats the work and never changes its outcome.
pub open spec fn repeated(count: u32, single: Option<nat>) -> Result<(), AccrualError> {
    if count == 0 || single is Some {
        Ok(())
    } else {
        Err(AccrualError::Overflow)
    }
}

/// Runs the accrual `count` times on backend `T`, stopping at the first
/// failure.
pub fn repeat_compound<T: CheckedUint>(
    count: u32,
    rate: T,
    last_update_timestamp: T,
    current_timestamp: T,
) -> (r: Result<(), AccrualError>)
    ensures
        r == repeated(
            count,
            accrual(
                rate.value(),
                last_update_timestamp.value(),
                current_timestamp.value(),
                T::limit(),
            ),
        ),
{
    let mut done: u32 = 0;
    while done < count
        invariant
            done <= count,
            done > 0 ==> accrual(
                rate.value(),
                last_update_timestamp.value(),
                current_timestamp.value(),
                T::limit(),
            ) is Some,
        decreases count - done,
    {
        match compound(rate, last_update_timestamp, current_timestamp) {
            Ok(_) => {},
            Err(e) => {
                return Err(e);
            },
        }
        done += 1;
    }
    Ok(())
}

/// Does nothing and succeeds: the baseline against which the other
/// operations are measured.
pub fn empty() -> (r: Result<(), AccrualError>)
    ensures
        r == Ok::<(), AccrualError>(()),
{
    Ok(())
}

/// Runs the accrual `count` times in native 128-bit arithmetic.
pub fn u128_native(
    count: u32,
    rate: u128,
    last_update_timestamp: u128,
    current_timestamp: u128,
) -> (r: Result<(), AccrualError>)
    ensures
        r == repeated(
            count,
            accrual(
                rate as nat,
                last_update_timestamp as nat,
                current_timestamp as nat,
                FixedPoint128::limit(),
            ),
        ),
{
    repeat_compound(
        count,
        FixedPoint128::from_u128(rate),
        FixedPoint128::from_u128(last_update_timestamp),
        FixedPoint128::from_u128(current_timestamp),
    )
}

/// Runs the accrual `count` times on the two-limb 128-bit backend.
pub fn u128_uint(
    count: u32,
    rate: u128,
    last_update_timestamp: u128,
    current_timestamp: u128,
) -> (r: Result<(), AccrualError>)
    ensures
        r == repeated(
            count,
            accrual(
                rate as nat,
                last_update_timestamp as nat,
                current_timestamp as nat,
                FixedPoint128Wide::limit(),
            ),
        ),
{
    repeat_compound(
        count,
        FixedPoint128Wide::from_u128(rate),
        FixedPoint128Wide::from_u128(last_update_timestamp),
        FixedPoint128Wide::from_u128(current_timestamp),
    )
}

/// Runs the accrual `count` times on the four-limb 256-bit backend.
pub fn u256_uint(
    count: u32,
    rate: u128,
    last_update_timestamp: u128,
    current_timestamp: u128,
) -> (r: Result<(), AccrualError>)
    ensures
        r == repeated(
            count,
            accrual(
                rate as nat,
                last_update_timestamp as nat,
                current_timestamp as nat,
                FixedPoint256Wide::limit(),
            ),
        ),
{
    repeat_compound(
        count,
        FixedPoint256Wide::from_u128(rate),
        FixedPoint256Wide::from_u128(last_update_timestamp),
        FixedPoint256Wide::from_u128(current_timestamp),
    )
}

} // verus!
