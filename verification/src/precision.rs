//! Per-width numeric-precision facts: guaranteed decimal digits, the
//! base-10 exponent range, and the machine epsilon.

use vstd::prelude::*;

use crate::float32::{Float32, EPSILON32, MAX_10_EXP32, MAX_DECIMAL32, MIN_10_EXP32};
use crate::float64::{Float64, EPSILON64, MAX_10_EXP64, MAX_DECIMAL64, MIN_10_EXP64};

verus! {

/// Numeric-precision facts of a floating-point width, read off an instance
/// of that width.
pub trait Precision: Sized {
    /// The number of decimal digits guaranteed correct for this width.
    fn max_decimal(&self) -> u32;

    /// The largest base-10 exponent a value of this width can carry.
    fn max_10_exp(&self) -> i32;

    /// The smallest base-10 exponent a normal value of this width can carry.
    fn min_10_exp(&self) -> i32;

    /// The machine epsilon: the distance from one to the next value of
    /// this width.
    fn epsilon(&self) -> Self;
}

impl Precision for Float32 {
    fn max_decimal(&self) -> (r: u32)
        ensures
            r == MAX_DECIMAL32,
    {
        MAX_DECIMAL32
    }

    fn max_10_exp(&self) -> (r: i32)
        ensures
            r == MAX_10_EXP32,
    {
        MAX_10_EXP32
    }

    fn min_10_exp(&self) -> (r: i32)
        ensures
            r == MIN_10_EXP32,
    {
        MIN_10_EXP32
    }

    fn epsilon(&self) -> (r: Float32)
        ensures
            r.bits == EPSILON32,
    {
        Float32 { bits: EPSILON32 }
    }
}

impl Precision for Float64 {
    fn max_decimal(&self) -> (r: u32)
        ensures
            r == MAX_DECIMAL64,
    {
        MAX_DECIMAL64
    }

    fn max_10_exp(&self) -> (r: i32)
        ensures
            r == MAX_10_EXP64,
    {
        MAX_10_EXP64
    }

    fn min_10_exp(&self) -> (r: i32)
        ensures
            r == MIN_10_EXP64,
    {
        MIN_10_EXP64
    }

    fn epsilon(&self) -> (r: Float64)
        ensures
            r.bits == EPSILON64,
    {
        Float64 { bits: EPSILON64 }
    }
}

} // verus!
