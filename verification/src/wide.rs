//! The two limb-array backends.
//!
//! A value is held as little-endian 64-bit limbs. Its arithmetic is done by
//! `primitive_types::U128` and `primitive_types::U256`; the functions that
//! call them are trusted, and each states what the call returns over the
//! natural number that the limbs stand for.

use vstd::prelude::*;
use primitive_types::{U128, U256};
use crate::backend::CheckedUint;

verus! {

/// The weight of one limb position: 2^64.
pub open spec fn limb_base() -> nat {
    0x1_0000_0000_0000_0000nat
}

/// The natural number that two little-endian limbs stand for.
pub open spec fn limbs2_value(limbs: [u64; 2]) -> nat {
    limbs[0] as nat + limb_base() * (limbs[1] as nat)
}

/// The natural number that four little-endian limbs stand for.
pub open spec fn limbs4_value(limbs: [u64; 4]) -> nat {
    limbs[0] as nat + limb_base() * (limbs[1] as nat + limb_base() * (limbs[2] as nat + limb_base()
        * (limbs[3] as nat)))
}

/// The largest 128-bit number, 2^128 - 1.
pub open spec fn wide128_max() -> nat {
    0xffff_ffff_ffff_ffff_ffff_ffff_ffff_ffffnat
}

/// The largest 256-bit number, 2^256 - 1.
pub open spec fn wide256_max() -> nat {
    0xffff_ffff_ffff_ffff_ffff_ffff_ffff_ffff_ffff_ffff_ffff_ffff_ffff_ffff_ffff_ffffnat
}

/// A 128-bit unsigned integer held as two little-endian limbs.
#[derive(Clone, Copy, Debug, PartialEq, Eq)]
pub struct FixedPoint128Wide {
    pub limbs: [u64; 2],
}

/// A 256-bit unsigned integer held as four little-endian limbs.
#[derive(Clone, Copy, Debug, PartialEq, Eq)]
pub struct FixedPoint256Wide {
    pub limbs: [u64; 4],
}

/// `From<u128>` of `primitive_types::U128`: the low limb takes the low 64
/// bits of `v`, the next limb the high 64 bits, so the result stands for `v`.
#[verifier::external_body]
fn wide128_from_u128(v: u128) -> (r: FixedPoint128Wide)
    ensures
        r.value() == v,
{
    FixedPoint128Wide { limbs: U128::from(v).0 }
}

/// `primitive_types::U128::is_zero`: true exactly where every limb is zero.
#[verifier::external_body]
fn wide128_is_zero(a: &FixedPoint128Wide) -> (b: bool)
    ensures
        b == (a.value() == 0),
{
    U128(a.limbs).is_zero()
}

/// `<=` of `primitive_types::U128`, which compares limbs from the most
/// significant down: the order of the numbers they stand for.
#[verifier::external_body]
fn wide128_at_most(a: &FixedPoint128Wide, b: &FixedPoint128Wide) -> (r: bool)
    ensures
        r == (a.value() <= b.value()),
{
    U128(a.limbs) <= U128(b.limbs)
}

/// `primitive_types::U128::checked_add`: the sum, or `None` where the
/// addition carries out of the top limb.
#[verifier::external_body]
fn wide128_checked_add(a: FixedPoint128Wide, b: FixedPoint128Wide) -> (r: Option<FixedPoint128Wide>)
    ensures
        match r {
            Some(v) => v.value() == a.value() + b.value(),
            None => a.value() + b.value() > wide128_max(),
        },
{
    match U128(a.limbs).checked_add(U128(b.limbs)) {
        Some(v) => Some(FixedPoint128Wide { limbs: v.0 }),
        None => None,
    }
}

/// `primitive_types::U128::checked_sub`: the difference, or `None` where
/// the subtraction borrows out of the top limb.
#[verifier::external_body]
fn wide128_checked_sub(a: FixedPoint128Wide, b: FixedPoint128Wide) -> (r: Option<FixedPoint128Wide>)
    ensures
        match r {
            Some(v) => v.value() == a.value() - b.value(),
            None => a.value() < b.value(),
        },
{
    match U128(a.limbs).checked_sub(U128(b.limbs)) {
        Some(v) => Some(FixedPoint128Wide { limbs: v.0 }),
        None => None,
    }
}

/// `primitive_types::U128::checked_mul`: the product, or `None` where any
/// limb of the upper half of the full 256-bit product is not zero.
#[verifier::external_body]
fn wide128_checked_mul(a: FixedPoint128Wide, b: FixedPoint128Wide) -> (r: Option<FixedPoint128Wide>)
    ensures
        match r {
            Some(v) => v.value() == a.value() * b.value(),
            None => a.value() * b.value() > wide128_max(),
        },
{
    match U128(a.limbs).checked_mul(U128(b.limbs)) {
        Some(v) => Some(FixedPoint128Wide { limbs: v.0 }),
        None => None,
    }
}

/// `primitive_types::U128::checked_div`: `None` where the divisor is zero,
/// else the quotient rounded down.
#[verifier::external_body]
fn wide128_checked_div(a: FixedPoint128Wide, b: FixedPoint128Wide) -> (r: Option<FixedPoint128Wide>)
    ensures
        match r {
            Some(v) => b.value() != 0 && v.value() == a.value() / b.value(),
            None => b.value() == 0,
        },
{
    match U128(a.limbs).checked_div(U128(b.limbs)) {
        Some(v) => Some(FixedPoint128Wide { limbs: v.0 }),
        None => None,
    }
}

impl CheckedUint for FixedPoint128Wide {
    open spec fn value(&self) -> nat {
        limbs2_value(self.limbs)
    }

    open spec fn limit() -> nat {
        wide128_max()
    }

    proof fn lemma_value_within_limit(&self) {
    }

    fn from_u128(v: u128) -> (r: Self) {
        wide128_from_u128(v)
    }

    fn ray() -> (r: Self) {
        FixedPoint128Wide { limbs: [11515845246265065472, 54210108] }
    }

    fn half_ray() -> (r: Self) {
        FixedPoint128Wide { limbs: [5757922623132532736, 27105054] }
    }

    fn is_zero(&self) -> (b: bool) {
        wide128_is_zero(self)
    }

    fn at_most(&self, other: &Self) -> (b: bool) {
        wide128_at_most(self, other)
    }

    fn checked_add(self, other: Self) -> (r: Option<Self>) {
        wide128_checked_add(self, other)
    }

    fn checked_sub(self, other: Self) -> (r: Option<Self>) {
        wide128_checked_sub(self, other)
    }

    fn checked_mul(self, other: Self) -> (r: Option<Self>) {
        wide128_checked_mul(self, other)
    }

    fn checked_div(self, other: Self) -> (r: Option<Self>) {
        wide128_checked_div(self, other)
    }
}

/// `From<u128>` of `primitive_types::U256`: the low limb takes the low 64
/// bits of `v`, the next limb the high 64 bits, so the result stands for `v`.
#[verifier::external_body]
fn wide256_from_u128(v: u128) -> (r: FixedPoint256Wide)
    ensures
        r.value() == v,
{
    FixedPoint256Wide { limbs: U256::from(v).0 }
}

/// `primitive_types::U256::is_zero`: true exactly where every limb is zero.
#[verifier::external_body]
fn wide256_is_zero(a: &FixedPoint256Wide) -> (b: bool)
    ensures
        b == (a.value() == 0),
{
    U256(a.limbs).is_zero()
}

/// `<=` of `primitive_types::U256`, which compares limbs from the most
/// significant down: the order of the numbers they stand for.
#[verifier::external_body]
fn wide256_at_most(a: &FixedPoint256Wide, b: &FixedPoint256Wide) -> (r: bool)
    ensures
        r == (a.value() <= b.value()),
{
    U256(a.limbs) <= U256(b.limbs)
}

/// `primitive_types::U256::checked_add`: the sum, or `None` where the
/// addition carries out of the top limb.
#[verifier::external_body]
fn wide256_checked_add(a: FixedPoint256Wide, b: FixedPoint256Wide) -> (r: Option<FixedPoint256Wide>)
    ensures
        match r {
            Some(v) => v.value() == a.value() + b.value(),
            None => a.value() + b.value() > wide256_max(),
        },
{
    match U256(a.limbs).checked_add(U256(b.limbs)) {
        Some(v) => Some(FixedPoint256Wide { limbs: v.0 }),
        None => None,
    }
}

/// `primitive_types::U256::checked_sub`: the difference, or `None` where
/// the subtraction borrows out of the top limb.
#[verifier::external_body]
fn wide256_checked_sub(a: FixedPoint256Wide, b: FixedPoint256Wide) -> (r: Option<FixedPoint256Wide>)
    ensures
        match r {
            Some(v) => v.value() == a.value() - b.value(),
            None => a.value() < b.value(),
        },
{
    match U256(a.limbs).checked_sub(U256(b.limbs)) {
        Some(v) => Some(FixedPoint256Wide { limbs: v.0 }),
        None => None,
    }
}

/// `primitive_types::U256::checked_mul`: the product, or `None` where any
/// limb of the upper half of the full 512-bit product is not zero.
#[verifier::external_body]
fn wide256_checked_mul(a: FixedPoint256Wide, b: FixedPoint256Wide) -> (r: Option<FixedPoint256Wide>)
    ensures
        match r {
            Some(v) => v.value() == a.value() * b.value(),
            None => a.value() * b.value() > wide256_max(),
        },
{
    match U256(a.limbs).checked_mul(U256(b.limbs)) {
        Some(v) => Some(FixedPoint256Wide { limbs: v.0 }),
        None => None,
    }
}

/// `primitive_types::U256::checked_div`: `None` where the divisor is zero,
/// else the quotient rounded down.
#[verifier::external_body]
fn wide256_checked_div(a: FixedPoint256Wide, b: FixedPoint256Wide) -> (r: Option<FixedPoint256Wide>)
    ensures
        match r {
            Some(v) => b.value() != 0 && v.value() == a.value() / b.value(),
            None => b.value() == 0,
        },
{
    match U256(a.limbs).checked_div(U256(b.limbs)) {
        Some(v) => Some(FixedPoint256Wide { limbs: v.0 }),
        None => None,
    }
}

impl CheckedUint for FixedPoint256Wide {
    open spec fn value(&self) -> nat {
        limbs4_value(self.limbs)
    }

    open spec fn limit() -> nat {
        wide256_max()
    }

    proof fn lemma_value_within_limit(&self) {
    }

    fn from_u128(v: u128) -> (r: Self) {
        wide256_from_u128(v)
    }

    fn ray() -> (r: Self) {
        FixedPoint256Wide { limbs: [11515845246265065472, 54210108, 0, 0] }
    }

    fn half_ray() -> (r: Self) {
        FixedPoint256Wide { limbs: [5757922623132532736, 27105054, 0, 0] }
    }

    fn is_zero(&self) -> (b: bool) {
        wide256_is_zero(self)
    }

    fn at_most(&self, other: &Self) -> (b: bool) {
        wide256_at_most(self, other)
    }

    fn checked_add(self, other: Self) -> (r: Option<Self>) {
        wide256_checked_add(self, other)
    }

    fn checked_sub(self, other: Self) -> (r: Option<Self>) {
        wide256_checked_sub(self, other)
    }

    fn checked_mul(self, other: Self) -> (r: Option<Self>) {
        wide256_checked_mul(self, other)
    }

    fn checked_div(self, other: Self) -> (r: Option<Self>) {
        wide256_checked_div(self, other)
    }
}

} // verus!
