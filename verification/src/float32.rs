//! The 32-bit floating-point width: its bit-level model and the rounded
//! operations of that width.

use vstd::prelude::*;

verus! {

/// A 32-bit IEEE 754 value, held as its raw bit pattern.
#[derive(Clone, Copy, PartialEq, Eq, Structural, Debug)]
pub struct Float32 {
    /// The raw IEEE 754 bit pattern: sign, 8 exponent bits, 23 fraction bits.
    pub bits: u32,
}

/// First bit pattern with the sign bit set.
pub const SIGN32: u32 = 0x8000_0000;
/// Magnitude (sign cleared) of the two infinities.
pub const INF_MAG32: u32 = 0x7F80_0000;
/// The canonical quiet NaN bit pattern.
pub const NAN32: u32 = 0x7FC0_0000;
/// Bit pattern of the value one.
pub const ONE32: u32 = 0x3F80_0000;
/// Bit pattern of the value one and a half, the slack factor of the
/// decimal-precision relation.
pub const THREE_HALVES32: u32 = 0x3FC0_0000;
/// Bit pattern of the machine epsilon of this width (2^-23).
pub const EPSILON32: u32 = 0x3400_0000;
/// Largest base-10 exponent a value of this width can carry.
pub const MAX_10_EXP32: i32 = 38;
/// Smallest base-10 exponent a normal value of this width can carry.
pub const MIN_10_EXP32: i32 = -37;
/// Decimal digits guaranteed correct for this width.
pub const MAX_DECIMAL32: u32 = 7;

/// Whether the sign bit is set.
pub open spec fn sign32(b: u32) -> bool {
    b >= SIGN32
}

/// The magnitude: the bit pattern with the sign bit cleared.
pub open spec fn mag32(b: u32) -> u32 {
    if b >= SIGN32 {
        (b - SIGN32) as u32
    } else {
        b
    }
}

/// A NaN: magnitude strictly above that of an infinity.
pub open spec fn is_nan32(b: u32) -> bool {
    mag32(b) > INF_MAG32
}

/// One of the two infinities.
pub open spec fn is_inf32(b: u32) -> bool {
    mag32(b) == INF_MAG32
}

/// One of the two zeros.
pub open spec fn is_zero32(b: u32) -> bool {
    mag32(b) == 0
}

/// Neither a NaN nor an infinity (the zeros count as finite).
pub open spec fn is_finite32(b: u32) -> bool {
    mag32(b) < INF_MAG32
}

/// Every non-NaN value placed on the integer line in value order:
/// negative values by falling magnitude, then the two zeros together at
/// zero, then positive values by rising magnitude. For bit patterns of one
/// sign, magnitude order is value order, so this key orders as the values
/// do.
pub open spec fn key32(b: u32) -> int {
    if sign32(b) {
        -(mag32(b) as int)
    } else {
        mag32(b) as int
    }
}

/// IEEE 754 `<=` on two bit patterns: false whenever either side is NaN,
/// otherwise the order of the keys.
pub open spec fn le32(x: u32, y: u32) -> bool {
    &&& !is_nan32(x)
    &&& !is_nan32(y)
    &&& key32(x) <= key32(y)
}

/// IEEE 754 `==` on two bit patterns: false whenever either side is NaN;
/// otherwise equal keys, which means equal bits or two zeros.
pub open spec fn float_eq32(x: u32, y: u32) -> bool {
    &&& !is_nan32(x)
    &&& !is_nan32(y)
    &&& key32(x) == key32(y)
}

/// The magnitude of the larger operand: `max(|x|, |y|)` as a bit pattern.
pub open spec fn max_mag32(x: u32, y: u32) -> u32 {
    if le32(mag32(x), mag32(y)) {
        mag32(y)
    } else {
        mag32(x)
    }
}

/// The magnitude of a bit pattern, executable form.
pub fn mag_bits32(b: u32) -> (r: u32)
    ensures
        r == mag32(b),
{
    if b >= SIGN32 {
        b - SIGN32
    } else {
        b
    }
}

/// IEEE 754 `<=`, computed on the bits alone.
pub fn le_bits32(x: u32, y: u32) -> (r: bool)
    ensures
        r == le32(x, y),
{
    let mx: u32 = mag_bits32(x);
    let my: u32 = mag_bits32(y);
    if mx > INF_MAG32 || my > INF_MAG32 {
        false
    } else if x >= SIGN32 {
        if y >= SIGN32 {
            my <= mx
        } else {
            true
        }
    } else {
        if y >= SIGN32 {
            mx == 0 && my == 0
        } else {
            mx <= my
        }
    }
}

/// IEEE 754 `==`, computed on the bits alone.
pub fn float_eq_bits32(x: u32, y: u32) -> (r: bool)
    ensures
        r == float_eq32(x, y),
{
    let mx: u32 = mag_bits32(x);
    let my: u32 = mag_bits32(y);
    if mx > INF_MAG32 || my > INF_MAG32 {
        false
    } else {
        x == y || (mx == 0 && my == 0)
    }
}

impl Float32 {
    /// Wraps a raw bit pattern.
    pub fn from_bits(bits: u32) -> (r: Float32)
        ensures
            r.bits == bits,
    {
        Float32 { bits }
    }

    /// Hands the raw bit pattern back.
    pub fn to_bits(&self) -> (r: u32)
        ensures
            r == self.bits,
    {
        self.bits
    }

    /// Whether this value is a NaN (of either sign, any payload).
    pub fn is_nan(&self) -> (r: bool)
        ensures
            r == is_nan32(self.bits),
    {
        mag_bits32(self.bits) > INF_MAG32
    }

    /// Whether this value is one of the two infinities.
    pub fn is_infinite(&self) -> (r: bool)
        ensures
            r == is_inf32(self.bits),
    {
        mag_bits32(self.bits) == INF_MAG32
    }

    /// Whether this value is one of the two zeros.
    pub fn is_zero(&self) -> (r: bool)
        ensures
            r == is_zero32(self.bits),
    {
        mag_bits32(self.bits) == 0
    }

    /// Whether this value is finite: neither a NaN nor an infinity.
    pub fn is_finite(&self) -> (r: bool)
        ensures
            r == is_finite32(self.bits),
    {
        mag_bits32(self.bits) < INF_MAG32
    }
}

/// The rounded difference of two values of this width: what IEEE 754
/// binary32 subtraction (round to nearest, ties to even) makes of the two
/// bit patterns. A pure function of its arguments; no contract states its
/// value on given bits.
pub uninterp spec fn sub_bits32(x: u32, y: u32) -> u32;

/// Relies on `rustc_apfloat::ieee::Single`'s subtraction, rounding to
/// nearest with ties to even. Assumed beside the name: the difference of
/// two finite values is never NaN; the difference of two equal finite
/// values is a zero; and the differences taken in the two orders have one
/// magnitude, since the exact differences are negations of each other and
/// this rounding is symmetric under negation.
#[verifier::external_body]
pub(crate) fn apf_sub32(x: u32, y: u32) -> (r: u32)
    ensures
        r == sub_bits32(x, y),
        is_finite32(x) && is_finite32(y) ==> !is_nan32(r),
        is_finite32(x) && is_finite32(y) && float_eq32(x, y) ==> is_zero32(r),
        r == sub_bits32(x, y) ==> (forall|u: u32, v: u32|
            !is_nan32(u) && !is_nan32(v) ==> mag32(#[trigger] sub_bits32(u, v)) == mag32(
                sub_bits32(v, u),
            )),
{
    let a = <rustc_apfloat::ieee::Single as rustc_apfloat::Float>::from_bits(x as u128);
    let b = <rustc_apfloat::ieee::Single as rustc_apfloat::Float>::from_bits(y as u128);
    rustc_apfloat::Float::to_bits((a - b).value) as u32
}

/// The rounded product of two values of this width, as IEEE 754 binary32
/// multiplication (round to nearest, ties to even) makes it.
pub uninterp spec fn mul_bits32(x: u32, y: u32) -> u32;

/// Relies on `rustc_apfloat::ieee::Single`'s multiplication, rounding to
/// nearest with ties to even. Assumed beside the name: a product of
/// non-NaN factors is NaN only for zero times infinity; the sign of a
/// non-NaN product is the exclusive or of the factors' signs; and with a
/// fixed non-negative factor the rounded product is monotone in the other
/// factor, since rounding preserves order.
#[verifier::external_body]
pub(crate) fn apf_mul32(x: u32, y: u32) -> (r: u32)
    ensures
        r == mul_bits32(x, y),
        r == mul_bits32(x, y) ==> (forall|u: u32, v: u32|
            (!is_nan32(u) && !is_nan32(v) && !(is_zero32(u) && is_inf32(v)) && !(is_inf32(u)
                && is_zero32(v))) ==> (!is_nan32(#[trigger] mul_bits32(u, v)) && sign32(
                mul_bits32(u, v),
            ) == (sign32(u) != sign32(v)))),
        r == mul_bits32(x, y) ==> (forall|u: u32, v1: u32, v2: u32|
            (!is_nan32(u) && !sign32(u) && !sign32(v1) && !sign32(v2) && le32(v1, v2) && !(
            is_zero32(u) && is_inf32(v2)) && !(is_inf32(u) && is_zero32(v1))) ==> le32(
                #[trigger] mul_bits32(u, v1),
                #[trigger] mul_bits32(u, v2),
            )),
{
    let a = <rustc_apfloat::ieee::Single as rustc_apfloat::Float>::from_bits(x as u128);
    let b = <rustc_apfloat::ieee::Single as rustc_apfloat::Float>::from_bits(y as u128);
    rustc_apfloat::Float::to_bits((a * b).value) as u32
}

/// The rounded quotient of two values of this width, as IEEE 754 binary32
/// division (round to nearest, ties to even) makes it.
pub uninterp spec fn div_bits32(x: u32, y: u32) -> u32;

/// Relies on `rustc_apfloat::ieee::Single`'s division, rounding to nearest
/// with ties to even. Assumed beside the name: a positive zero divided by
/// a positive value that is neither zero nor NaN is the positive zero.
#[verifier::external_body]
pub(crate) fn apf_div32(x: u32, y: u32) -> (r: u32)
    ensures
        r == div_bits32(x, y),
        is_zero32(x) && !sign32(x) && !is_nan32(y) && !is_zero32(y) && !sign32(y) ==> r == 0,
{
    let a = <rustc_apfloat::ieee::Single as rustc_apfloat::Float>::from_bits(x as u128);
    let b = <rustc_apfloat::ieee::Single as rustc_apfloat::Float>::from_bits(y as u128);
    rustc_apfloat::Float::to_bits((a / b).value) as u32
}

/// The power of ten with the given exponent, correctly rounded to this
/// width: very large exponents saturate to the positive infinity, very
/// small ones to the positive zero.
pub uninterp spec fn pow_ten32(e: int) -> u32;

/// Relies on `rustc_apfloat::ieee::Single`'s decimal parsing (round to
/// nearest, ties to even) of the literal `1e<e>`, which never fails on
/// that syntax. Assumed beside the name: every rounded power of ten is
/// positive and not NaN, and the family is monotone in the exponent, as
/// the correct rounding of an increasing family is.
#[verifier::external_body]
pub(crate) fn apf_pow_ten32(e: i64) -> (r: u32)
    ensures
        r == pow_ten32(e as int),
        r == pow_ten32(e as int) ==> (forall|d: int|
            !is_nan32(#[trigger] pow_ten32(d)) && !sign32(pow_ten32(d))),
        r == pow_ten32(e as int) ==> (forall|d1: int, d2: int|
            d1 <= d2 ==> le32(#[trigger] pow_ten32(d1), #[trigger] pow_ten32(d2))),
{
    let s = format!("1e{}", e);
    let v: rustc_apfloat::ieee::Single = s.parse().unwrap();
    rustc_apfloat::Float::to_bits(v) as u32
}

/// The rounded difference, behind its magnitude: `|x - y|` of this width.
pub open spec fn abs_diff32(x: u32, y: u32) -> u32 {
    mag32(sub_bits32(x, y))
}

/// Computes `|x - y|` of this width: one rounded subtraction, then the
/// sign bit cleared.
pub fn abs_diff_bits32(x: u32, y: u32) -> (r: u32)
    ensures
        r == abs_diff32(x, y),
        is_finite32(x) && is_finite32(y) ==> !is_nan32(r),
        is_finite32(x) && is_finite32(y) && float_eq32(x, y) ==> r == 0,
        forall|u: u32, v: u32|
            !is_nan32(u) && !is_nan32(v) ==> mag32(#[trigger] sub_bits32(u, v)) == mag32(
                sub_bits32(v, u),
            ),
{
    let d: u32 = apf_sub32(x, y);
    proof {
        assert(mag32(mag32(d)) == mag32(d));
    }
    mag_bits32(d)
}

} // verus!
