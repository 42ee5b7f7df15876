//! Compound-interest accrual in ray-scaled fixed point.
//!
//! The multiplier `(1 + rate)^elapsed` is approximated by a binomial series
//! cut after the quartic term. One generic engine runs over three integer
//! representations: the native `u128`, a two-limb 128-bit integer and a
//! four-limb 256-bit integer. Every arithmetic step is checked: a value that
//! does not fit the representation fails the whole computation.

pub mod model;
pub mod backend;
pub mod wide;
pub mod accrual;
pub mod program;
pub mod laws;

pub use crate::model::{AccrualError, HALF_RAY, RAY};
pub use crate::backend::{CheckedUint, FixedPoint128};
pub use crate::wide::{FixedPoint128Wide, FixedPoint256Wide};
pub use crate::accrual::{
    calc_u128_native, calc_u128_uint, calc_u256_uint, compound, ray_mul, raymul_u128_native,
    raymul_u128_uint, raymul_u256_uint,
};
pub use crate::program::{empty, repeat_compound, u128_native, u128_uint, u256_uint};
