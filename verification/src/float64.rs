//! The 64-bit floating-point width: its bit-level model and the rounded
//! operations of that width.

use vstd::prelude::*;

verus! {

/// A 64-bit IEEE 754 value, held as its raw bit pattern.
#[derive(Clone, Copy, PartialEq, Eq, Structural, Debug)]
pub struct Float64 {
    /// The raw IEEE 754 bit pattern: sign, 11 exponent bits, 52 fraction bits.
    pub bits: u64,
}

/// First bit pattern with the sign bit set.
pub const SIGN64: u64 = 0x8000_0000_0000_0000;
/// Magnitude (sign cleared) of the two infinities.
pub const INF_MAG64: u64 = 0x7FF0_0000_0000_0000;
/// The canonical quiet NaN bit pattern.
pub const NAN64: u64 = 0x7FF8_0000_0000_0000;
/// Bit pattern of the value one.
pub const ONE64: u64 = 0x3FF0_0000_0000_0000;
/// Bit pattern of the value one and a half, the slack factor of the
/// decimal-precision relation.
pub const THREE_HALVES64: u64 = 0x3FF8_0000_0000_0000;
/// Bit pattern of the machine epsilon of this width (2^-52).
pub const EPSILON64: u64 = 0x3CB0_0000_0000_0000;
/// Largest base-10 exponent a value of this width can carry.
pub const MAX_10_EXP64: i32 = 308;
/// Smallest base-10 exponent a normal value of this width can carry.
pub const MIN_10_EXP64: i32 = -307;
/// Decimal digits guaranteed correct for this width.
pub const MAX_DECIMAL64: u32 = 15;

/// Whether the sign bit is set.
pub open spec fn sign64(b: u64) -> bool {
    b >= SIGN64
}

/// The magnitude: the bit pattern with the sign bit cleared.
pub open spec fn mag64(b: u64) -> u64 {
    if b >= SIGN64 {
        (b - SIGN64) as u64
    } else {
        b
    }
}

/// A NaN: magnitude strictly above that of an infinity.
pub open spec fn is_nan64(b: u64) -> bool {
    mag64(b) > INF_MAG64
}

/// One of the two infinities.
pub open spec fn is_inf64(b: u64) -> bool {
    mag64(b) == INF_MAG64
}

/// One of the two zeros.
pub open spec fn is_zero64(b: u64) -> bool {
    mag64(b) == 0
}

/// Neither a NaN nor an infinity (the zeros count as finite).
pub open spec fn is_finite64(b: u64) -> bool {
    mag64(b) < INF_MAG64
}

/// Every non-NaN value placed on the integer line in value order:
/// negative values by falling magnitude, then the two zeros together at
/// zero, then positive values by rising magnitude. For bit patterns of one
/// sign, magnitude order is value order, so this key orders as the values
/// do.
pub open spec fn key64(b: u64) -> int {
    if sign64(b) {
        -(mag64(b) as int)
    } else {
        mag64(b) as int
    }
}

/// IEEE 754 `<=` on two bit patterns: false whenever either side is NaN,
/// otherwise the order of the keys.
pub open spec fn le64(x: u64, y: u64) -> bool {
    &&& !is_nan64(x)
    &&& !is_nan64(y)
    &&& key64(x) <= key64(y)
}

/// IEEE 754 `==` on two bit patterns: false whenever either side is NaN;
/// otherwise equal keys, which means equal bits or two zeros.
pub open spec fn float_eq64(x: u64, y: u64) -> bool {
    &&& !is_nan64(x)
    &&& !is_nan64(y)
    &&& key64(x) == key64(y)
}

/// The magnitude of the larger operand: `max(|x|, |y|)` as a bit pattern.
pub open spec fn max_mag64(x: u64, y: u64) -> u64 {
    if le64(mag64(x), mag64(y)) {
        mag64(y)
    } else {
        mag64(x)
    }
}

/// The magnitude of a bit pattern, executable form.
pub fn mag_bits64(b: u64) -> (r: u64)
    ensures
        r == mag64(b),
{
    if b >= SIGN64 {
        b - SIGN64
    } else {
        b
    }
}

/// IEEE 754 `<=`, computed on the bits alone.
pub fn le_bits64(x: u64, y: u64) -> (r: bool)
    ensures
        r == le64(x, y),
{
    let mx: u64 = mag_bits64(x);
    let my: u64 = mag_bits64(y);
    if mx > INF_MAG64 || my > INF_MAG64 {
        false
    } else if x >= SIGN64 {
        if y >= SIGN64 {
            my <= mx
        } else {
            true
        }
    } else {
        if y >= SIGN64 {
            mx == 0 && my == 0
        } else {
            mx <= my
        }
    }
}

/// IEEE 754 `==`, computed on the bits alone.
pub fn float_eq_bits64(x: u64, y: u64) -> (r: bool)
    ensures
        r == float_eq64(x, y),
{
    let mx: u64 = mag_bits64(x);
    let my: u64 = mag_bits64(y);
    if mx > INF_MAG64 || my > INF_MAG64 {
        false
    } else {
        x == y || (mx == 0 && my == 0)
    }
}

impl Float64 {
    /// Wraps a raw bit pattern.
    pub fn from_bits(bits: u64) -> (r: Float64)
        ensures
            r.bits == bits,
    {
        Float64 { bits }
    }

    /// Hands the raw bit pattern back.
    pub fn to_bits(&self) -> (r: u64)
        ensures
            r == self.bits,
    {
        self.bits
    }

    /// Whether this value is a NaN (of either sign, any payload).
    pub fn is_nan(&self) -> (r: bool)
        ensures
            r == is_nan64(self.bits),
    {
        mag_bits64(self.bits) > INF_MAG64
    }

    /// Whether this value is one of the two infinities.
    pub fn is_infinite(&self) -> (r: bool)
        ensures
            r == is_inf64(self.bits),
    {
        mag_bits64(self.bits) == INF_MAG64
    }

    /// Whether this value is one of the two zeros.
    pub fn is_zero(&self) -> (r: bool)
        ensures
            r == is_zero64(self.bits),
    {
        mag_bits64(self.bits) == 0
    }

    /// Whether this value is finite: neither a NaN nor an infinity.
    pub fn is_finite(&self) -> (r: bool)
        ensures
            r == is_finite64(self.bits),
    {
        mag_bits64(self.bits) < INF_MAG64
    }
}

/// The rounded difference of two values of this width: what IEEE 754
/// binary64 subtraction (round to nearest, ties to even) makes of the two
/// bit patterns. A pure function of its arguments; no contract states its
/// value on given bits.
pub uninterp spec fn sub_bits64(x: u64, y: u64) -> u64;

/// Relies on `rustc_apfloat::ieee::Double`'s subtraction, rounding to
/// nearest with ties to even. Assumed beside the name: the difference of
/// two finite values is never NaN; the difference of two equal finite
/// values is a zero; and the differences taken in the two orders have one
/// magnitude, since the exact differences are negations of each other and
/// this rounding is symmetric under negation.
#[verifier::external_body]
pub(crate) fn apf_sub64(x: u64, y: u64) -> (r: u64)
    ensures
        r == sub_bits64(x, y),
        is_finite64(x) && is_finite64(y) ==> !is_nan64(r),
        is_finite64(x) && is_finite64(y) && float_eq64(x, y) ==> is_zero64(r),
        r == sub_bits64(x, y) ==> (forall|u: u64, v: u64|
            !is_nan64(u) && !is_nan64(v) ==> mag64(#[trigger] sub_bits64(u, v)) == mag64(
                sub_bits64(v, u),
            )),
{
    let a = <rustc_apfloat::ieee::Double as rustc_apfloat::Float>::from_bits(x as u128);
    let b = <rustc_apfloat::ieee::Double as rustc_apfloat::Float>::from_bits(y as u128);
    rustc_apfloat::Float::to_bits((a - b).value) as u64
}

/// The rounded product of two values of this width, as IEEE 754 binary64
/// multiplication (round to nearest, ties to even) makes it.
pub uninterp spec fn mul_bits64(x: u64, y: u64) -> u64;

/// Relies on `rustc_apfloat::ieee::Double`'s multiplication, rounding to
/// nearest with ties to even. Assumed beside the name: a product of
/// non-NaN factors is NaN only for zero times infinity; the sign of a
/// non-NaN product is the exclusive or of the factors' signs; and with a
/// fixed non-negative factor the rounded product is monotone in the other
/// factor, since rounding preserves order.
#[verifier::external_body]
pub(crate) fn apf_mul64(x: u64, y: u64) -> (r: u64)
    ensures
        r == mul_bits64(x, y),
        r == mul_bits64(x, y) ==> (forall|u: u64, v: u64|
            (!is_nan64(u) && !is_nan64(v) && !(is_zero64(u) && is_inf64(v)) && !(is_inf64(u)
                && is_zero64(v))) ==> (!is_nan64(#[trigger] mul_bits64(u, v)) && sign64(
                mul_bits64(u, v),
            ) == (sign64(u) != sign64(v)))),
        r == mul_bits64(x, y) ==> (forall|u: u64, v1: u64, v2: u64|
            (!is_nan64(u) && !sign64(u) && !sign64(v1) && !sign64(v2) && le64(v1, v2) && !(
            is_zero64(u) && is_inf64(v2)) && !(is_inf64(u) && is_zero64(v1))) ==> le64(
                #[trigger] mul_bits64(u, v1),
                #[trigger] mul_bits64(u, v2),
            )),
{
    let a = <rustc_apfloat::ieee::Double as rustc_apfloat::Float>::from_bits(x as u128);
    let b = <rustc_apfloat::ieee::Double as rustc_apfloat::Float>::from_bits(y as u128);
    rustc_apfloat::Float::to_bits((a * b).value) as u64
}

/// The rounded quotient of two values of this width, as IEEE 754 binary64
/// division (round to nearest, ties to even) makes it.
pub uninterp spec fn div_bits64(x: u64, y: u64) -> u64;

/// Relies on `rustc_apfloat::ieee::Double`'s division, rounding to nearest
/// with ties to even. Assumed beside the name: a positive zero divided by
/// a positive value that is neither zero nor NaN is the positive zero.
#[verifier::external_body]
pub(crate) fn apf_div64(x: u64, y: u64) -> (r: u64)
    ensures
        r == div_bits64(x, y),
        is_zero64(x) && !sign64(x) && !is_nan64(y) && !is_zero64(y) && !sign64(y) ==> r == 0,
{
    let a = <rustc_apfloat::ieee::Double as rustc_apfloat::Float>::from_bits(x as u128);
    let b = <rustc_apfloat::ieee::Double as rustc_apfloat::Float>::from_bits(y as u128);
    rustc_apfloat::Float::to_bits((a / b).value) as u64
}

/// The power of ten with the given exponent, correctly rounded to this
/// width: very large exponents saturate to the positive infinity, very
/// small ones to the positive zero.
pub uninterp spec fn pow_ten64(e: int) -> u64;

/// Relies on `rustc_apfloat::ieee::Double`'s decimal parsing (round to
/// nearest, ties to even) of the literal `1e<e>`, which never fails on
/// that syntax. Assumed beside the name: every rounded power of ten is
/// positive and not NaN, and the family is monotone in the exponent, as
/// the correct rounding of an increasing family is.
#[verifier::external_body]
pub(crate) fn apf_pow_ten64(e: i64) -> (r: u64)
    ensures
        r == pow_ten64(e as int),
        r == pow_ten64(e as int) ==> (forall|d: int|
            !is_nan64(#[trigger] pow_ten64(d)) && !sign64(pow_ten64(d))),
        r == pow_ten64(e as int) ==> (forall|d1: int, d2: int|
            d1 <= d2 ==> le64(#[trigger] pow_ten64(d1), #[trigger] pow_ten64(d2))),
{
    let s = format!("1e{}", e);
    let v: rustc_apfloat::ieee::Double = s.parse().unwrap();
    rustc_apfloat::Float::to_bits(v) as u64
}

/// The rounded difference, behind its magnitude: `|x - y|` of this width.
pub open spec fn abs_diff64(x: u64, y: u64) -> u64 {
    mag64(sub_bits64(x, y))
}

/// Computes `|x - y|` of this width: one rounded subtraction, then the
/// sign bit cleared.
pub fn abs_diff_bits64(x: u64, y: u64) -> (r: u64)
    ensures
        r == abs_diff64(x, y),
        is_finite64(x) && is_finite64(y) ==> !is_nan64(r),
        is_finite64(x) && is_finite64(y) && float_eq64(x, y) ==> r == 0,
        forall|u: u64, v: u64|
            !is_nan64(u) && !is_nan64(v) ==> mag64(#[trigger] sub_bits64(u, v)) == mag64(
                sub_bits64(v, u),
            ),
{
    let d: u64 = apf_sub64(x, y);
    proof {
        assert(mag64(mag64(d)) == mag64(d));
    }
    mag_bits64(d)
}

} // verus!
