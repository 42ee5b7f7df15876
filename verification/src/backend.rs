//! The capability set that the accrual engine needs from an unsigned
//! integer representation, and the native 128-bit backend.

use vstd::prelude::*;
use crate::model::{HALF_RAY, RAY};

verus! {

/// An unsigned integer representation with checked arithmetic.
///
/// A value stands for the natural number `value()`. No operation wraps: one
/// whose exact result lies outside `0..=limit()` returns `None`.
pub trait CheckedUint: Sized + Copy {
    /// The natural number that `self` stands for.
    spec fn value(&self) -> nat;

    /// The largest natural number that the representation holds.
    spec fn limit() -> nat;

    /// No value exceeds the limit.
    proof fn lemma_value_within_limit(&self)
        ensures
            self.value() <= Self::limit(),
    ;

    /// The representation of a native 128-bit number.
    fn from_u128(v: u128) -> (r: Self)
        ensures
            r.value() == v,
    ;

    /// The backend's constant for one ray.
    fn ray() -> (r: Self)
        ensures
            r.value() == RAY,
    ;

    /// The backend's constant for half a ray.
    fn half_ray() -> (r: Self)
        ensures
            r.value() == HALF_RAY,
    ;

    /// Whether `self` stands for zero.
    fn is_zero(&self) -> (b: bool)
        ensures
            b == (self.value() == 0),
    ;

    /// Whether `self` is less than or equal to `other`.
    fn at_most(&self, other: &Self) -> (b: bool)
        ensures
            b == (self.value() <= other.value()),
    ;

    /// The sum, or `None` where it exceeds the limit.
    fn checked_add(self, other: Self) -> (r: Option<Self>)
        ensures
            match r {
                Some(v) => v.value() == self.value() + other.value(),
                None => self.value() + other.value() > Self::limit(),
            },
    ;

    /// The difference, or `None` where `other` is the greater.
    fn checked_sub(self, other: Self) -> (r: Option<Self>)
        ensures
            match r {
                Some(v) => v.value() == self.value() - other.value(),
                None => self.value() < other.value(),
            },
    ;

    /// The product, or `None` where it exceeds the limit.
    fn checked_mul(self, other: Self) -> (r: Option<Self>)
        ensures
            match r {
                Some(v) => v.value() == self.value() * other.value(),
                None => self.value() * other.value() > Self::limit(),
            },
    ;

    /// The quotient rounded down, or `None` where `other` is zero.
    fn checked_div(self, other: Self) -> (r: Option<Self>)
        ensures
            match r {
                Some(v) => other.value() != 0 && v.value() == self.value() / other.value(),
                None => other.value() == 0,
            },
    ;
}

/// A checked-arithmetic wrapper over the native `u128`.
#[derive(Clone, Copy, Debug, PartialEq, Eq, Structural)]
pub struct FixedPoint128 {
    pub raw: u128,
}

impl CheckedUint for FixedPoint128 {
    open spec fn value(&self) -> nat {
        self.raw as nat
    }

    open spec fn limit() -> nat {
        u128::MAX as nat
    }

    proof fn lemma_value_within_limit(&self) {
    }

    fn from_u128(v: u128) -> (r: Self) {
        FixedPoint128 { raw: v }
    }

    fn ray() -> (r: Self) {
        FixedPoint128 { raw: RAY }
    }

    fn half_ray() -> (r: Self) {
        FixedPoint128 { raw: HALF_RAY }
    }

    fn is_zero(&self) -> (b: bool) {
        self.raw == 0
    }

    fn at_most(&self, other: &Self) -> (b: bool) {
        self.raw <= other.raw
    }

    fn checked_add(self, other: Self) -> (r: Option<Self>) {
        match self.raw.checked_add(other.raw) {
            Some(v) => Some(FixedPoint128 { raw: v }),
            None => None,
        }
    }

    fn checked_sub(self, other: Self) -> (r: Option<Self>) {
        match self.raw.checked_sub(other.raw) {
            Some(v) => Some(FixedPoint128 { raw: v }),
            None => None,
        }
    }

    fn checked_mul(self, other: Self) -> (r: Option<Self>) {
        match self.raw.checked_mul(other.raw) {
            Some(v) => Some(FixedPoint128 { raw: v }),
            None => None,
        }
    }

    fn checked_div(self, other: Self) -> (r: Option<Self>) {
        match self.raw.checked_div(other.raw) {
            Some(v) => Some(FixedPoint128 { raw: v }),
            None => None,
        }
    }
}

} // verus!
