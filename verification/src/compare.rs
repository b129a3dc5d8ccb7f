//! The comparison semantics: exact equality with NaN treated as a normal
//! value, decimal-precision equality with a search for the precision
//! actually achieved, and absolute- and relative-tolerance equality.

use vstd::prelude::*;

use crate::float32::{
    abs_diff32, abs_diff_bits32, apf_div32, apf_mul32, apf_pow_ten32, float_eq32, float_eq_bits32,
    is_finite32, is_inf32, is_nan32, is_zero32, key32, le32, le_bits32, mag_bits32,
    max_mag32, mul_bits32, div_bits32, pow_ten32, sign32, Float32, MAX_10_EXP32, MIN_10_EXP32,
    NAN32, ONE32, SIGN32, THREE_HALVES32,
};
use crate::float64::{
    abs_diff64, abs_diff_bits64, apf_div64, apf_mul64, apf_pow_ten64, float_eq64, float_eq_bits64,
    is_finite64, is_inf64, is_nan64, is_zero64, key64, le64, le_bits64, mag_bits64,
    max_mag64, mul_bits64, div_bits64, pow_ten64, sign64, Float64, MAX_10_EXP64, MIN_10_EXP64,
    NAN64, ONE64, SIGN64, THREE_HALVES64,
};

verus! {

/// Comparison of two values of one floating-point width.
///
/// Every method is total: each combination of zero, finite, infinite and
/// NaN operands, and every tolerance, has a defined verdict and metric.
/// NaN is deliberately treated as equal to NaN (of either sign), as the
/// conventions of numerical testing libraries have it, not as IEEE 754
/// comparison has it.
pub trait Compare: Sized {
    /// Whether this value is exactly equal to the other, NaN counting as
    /// equal to NaN.
    fn is_equal(&self, other: Self) -> bool;

    /// Whether this value equals the other to `decimal` decimal places
    /// (`|a-b| <= 1.5 * 10^-decimal`), together with the decimal
    /// precision actually achieved.
    fn is_equal_to_decimal(&self, other: Self, decimal: i32) -> (bool, i32);

    /// Whether this value is within the absolute tolerance of the other,
    /// together with the absolute difference `|a-b|`.
    fn is_equal_to_atol(&self, other: Self, atol: Self) -> (bool, Self);

    /// Whether this value is within the relative tolerance of the other,
    /// together with the relative difference `|a-b| / max(|a|, |b|)`.
    fn is_equal_to_rtol(&self, other: Self, rtol: Self) -> (bool, Self);
}

// ---------------------------------------------------------------------------
// The 64-bit width
// ---------------------------------------------------------------------------

/// Exact equality of two bit patterns of this width: ordinary IEEE 754
/// equality, except that a NaN equals every NaN.
pub open spec fn spec_is_equal64(x: u64, y: u64) -> bool {
    if is_nan64(x) || is_nan64(y) {
        is_nan64(x) && is_nan64(y)
    } else {
        float_eq64(x, y)
    }
}

/// Whether a pair of operands falls to one of the decimal-precision edge
/// cases: any NaN or any infinity.
pub open spec fn special64(x: u64, y: u64) -> bool {
    is_nan64(x) || is_nan64(y) || is_inf64(x) || is_inf64(y)
}

/// The decimal-precision ceiling of this width: the precision reported
/// for values the width cannot tell apart.
pub open spec fn dec_ceiling64() -> int {
    -MIN_10_EXP64
}

/// The decimal-precision floor of this width: the precision reported for
/// values that agree nowhere.
pub open spec fn dec_floor64() -> int {
    -MAX_10_EXP64
}

/// The decimal-precision threshold: `1.5 * 10^-d` of this width.
pub open spec fn thresh64(d: int) -> u64 {
    mul_bits64(THREE_HALVES64, pow_ten64(-d))
}

/// The decimal-precision relation on finite operands: `|x-y| <= 1.5 *
/// 10^-d`, all of it rounded to this width.
pub open spec fn dtest64(x: u64, y: u64, d: int) -> bool {
    le64(abs_diff64(x, y), thresh64(d))
}

/// The verdict of equality to `d` decimal places: NaN equals only NaN (at
/// any precision), equal infinities are equal at any precision, a lone
/// NaN or infinity agrees only at the floor precision, and finite pairs
/// go by the threshold relation.
pub open spec fn decimal_verdict64(x: u64, y: u64, d: int) -> bool {
    if is_nan64(x) || is_nan64(y) {
        if is_nan64(x) && is_nan64(y) {
            true
        } else {
            d == dec_floor64()
        }
    } else if is_inf64(x) || is_inf64(y) {
        if is_inf64(x) && is_inf64(y) && float_eq64(x, y) {
            true
        } else {
            d == dec_floor64()
        }
    } else {
        dtest64(x, y, d)
    }
}

/// The verdict of absolute-tolerance equality: two NaNs are equal, a lone
/// NaN is within a NaN tolerance only, equal-signed infinities are equal,
/// and every other pair goes by `|x-y| <= atol`.
pub open spec fn atol_verdict64(x: u64, y: u64, t: u64) -> bool {
    if is_nan64(x) && is_nan64(y) {
        true
    } else if is_nan64(x) || is_nan64(y) {
        is_nan64(t)
    } else if is_inf64(x) && is_inf64(y) && sign64(x) == sign64(y) {
        true
    } else {
        le64(abs_diff64(x, y), t)
    }
}

/// The absolute difference that absolute-tolerance equality reports.
pub open spec fn atol_diff64(x: u64, y: u64) -> u64 {
    if is_nan64(x) && is_nan64(y) {
        0
    } else if is_nan64(x) || is_nan64(y) {
        NAN64
    } else if is_inf64(x) && is_inf64(y) && sign64(x) == sign64(y) {
        0
    } else {
        abs_diff64(x, y)
    }
}

/// The verdict of relative-tolerance equality: two zeros, two NaNs or two
/// equal-signed infinities are equal; opposite infinities, a lone NaN or
/// a lone infinity are 100% apart and within tolerance only when the
/// tolerance is exactly one; and finite pairs go by
/// `|x-y| <= rtol * max(|x|, |y|)`.
pub open spec fn rtol_verdict64(x: u64, y: u64, t: u64) -> bool {
    if is_zero64(x) && is_zero64(y) {
        true
    } else if is_nan64(x) && is_nan64(y) {
        true
    } else if is_inf64(x) && is_inf64(y) {
        if sign64(x) == sign64(y) {
            true
        } else {
            t == ONE64
        }
    } else if is_nan64(x) || is_nan64(y) {
        t == ONE64
    } else if is_inf64(x) || is_inf64(y) {
        t == ONE64
    } else {
        le64(abs_diff64(x, y), mul_bits64(t, max_mag64(x, y)))
    }
}

/// The relative difference that relative-tolerance equality reports,
/// clamped to one (100%) for the mixed edge cases.
pub open spec fn rtol_diff64(x: u64, y: u64) -> u64 {
    if is_zero64(x) && is_zero64(y) {
        0
    } else if is_nan64(x) && is_nan64(y) {
        0
    } else if is_inf64(x) && is_inf64(y) {
        if sign64(x) == sign64(y) {
            0
        } else {
            ONE64
        }
    } else if is_nan64(x) || is_nan64(y) {
        ONE64
    } else if is_inf64(x) || is_inf64(y) {
        ONE64
    } else {
        div_bits64(abs_diff64(x, y), max_mag64(x, y))
    }
}

/// Tests `diff <= 1.5 * 10^-d` for this width, and carries the two facts
/// about the threshold family that the searches lean on: thresholds fall
/// as `d` rises, and a threshold is never NaN and never negative.
fn thresh_le64(diff: u64, d: i32) -> (r: bool)
    ensures
        r == le64(diff, thresh64(d as int)),
        forall|d1: int, d2: int| d1 <= d2 ==> le64(#[trigger] thresh64(d2), #[trigger] thresh64(d1)),
        forall|d1: int| !is_nan64(#[trigger] thresh64(d1)) && !sign64(thresh64(d1)),
{
    let p: u64 = apf_pow_ten64(-(d as i64));
    let t: u64 = apf_mul64(THREE_HALVES64, p);
    proof {
        assert forall|d1: int| !is_nan64(#[trigger] thresh64(d1)) && !sign64(thresh64(d1)) by {
            assert(!is_nan64(pow_ten64(-d1)) && !sign64(pow_ten64(-d1)));
            assert(!is_nan64(mul_bits64(THREE_HALVES64, pow_ten64(-d1))));
        }
        assert forall|d1: int, d2: int| d1 <= d2 implies le64(
            #[trigger] thresh64(d2),
            #[trigger] thresh64(d1),
        ) by {
            assert(le64(pow_ten64(-d2), pow_ten64(-d1)));
            assert(le64(
                mul_bits64(THREE_HALVES64, pow_ten64(-d2)),
                mul_bits64(THREE_HALVES64, pow_ten64(-d1)),
            ));
        }
    }
    le_bits64(diff, t)
}

impl Compare for Float64 {
    fn is_equal(&self, other: Self) -> (r: bool)
        ensures
            r == spec_is_equal64(self.bits, other.bits),
    {
        if self.is_nan() || other.is_nan() {
            return self.is_nan() && other.is_nan();
        }
        float_eq_bits64(self.bits, other.bits)
    }

    fn is_equal_to_decimal(&self, other: Self, decimal: i32) -> (r: (bool, i32))
        ensures
            r.0 == decimal_verdict64(self.bits, other.bits, decimal as int),
            special64(self.bits, other.bits) ==> r.1 as int == (if (is_nan64(self.bits)
                && is_nan64(other.bits)) || (is_inf64(self.bits) && is_inf64(other.bits)
                && float_eq64(self.bits, other.bits)) {
                dec_ceiling64()
            } else {
                dec_floor64()
            }),
            !special64(self.bits, other.bits) && r.0 && decimal as int >= dec_ceiling64()
                ==> r.1 == decimal,
            !special64(self.bits, other.bits) && r.0 && (decimal as int) < dec_ceiling64() ==> {
                &&& decimal as int <= r.1 as int && r.1 as int <= dec_ceiling64()
                &&& forall|e: int|
                    decimal as int <= e <= r.1 as int && e < dec_ceiling64() ==> dtest64(
                        self.bits,
                        other.bits,
                        e,
                    )
                &&& (r.1 as int) < dec_ceiling64() ==> !dtest64(
                    self.bits,
                    other.bits,
                    r.1 as int + 1,
                )
            },
            !special64(self.bits, other.bits) && !r.0 && decimal as int <= dec_floor64()
                ==> r.1 == decimal,
            !special64(self.bits, other.bits) && !r.0 && decimal as int > dec_floor64() ==> {
                &&& dec_floor64() <= r.1 as int && (r.1 as int) < decimal as int
                &&& forall|e: int|
                    (r.1 as int) < e && e <= decimal as int ==> !dtest64(self.bits, other.bits, e)
                &&& (r.1 as int > dec_floor64() ==> dtest64(self.bits, other.bits, r.1 as int))
            },
            r.0 ==> forall|e: int|
                dec_floor64() <= e <= decimal as int ==> decimal_verdict64(
                    self.bits,
                    other.bits,
                    e,
                ),
            !special64(self.bits, other.bits) && float_eq64(self.bits, other.bits) ==> r.0
                && r.1 as int == (if decimal as int <= dec_ceiling64() {
                dec_ceiling64()
            } else {
                decimal as int
            }),
    {
        let a: u64 = self.bits;
        let b: u64 = other.bits;
        if self.is_nan() || other.is_nan() {
            if self.is_nan() && other.is_nan() {
                return (true, -MIN_10_EXP64);
            }
            return (decimal == -MAX_10_EXP64, -MAX_10_EXP64);
        }
        if self.is_infinite() || other.is_infinite() {
            if self.is_infinite() && other.is_infinite() && float_eq_bits64(a, b) {
                return (true, -MIN_10_EXP64);
            }
            return (decimal == -MAX_10_EXP64, -MAX_10_EXP64);
        }
        let diff: u64 = abs_diff_bits64(a, b);
        let result: bool = thresh_le64(diff, decimal);
        let cap: i32 = -MIN_10_EXP64;
        let floor: i32 = -MAX_10_EXP64;
        let mut actual: i32 = decimal;
        let mut new_result: bool = result;
        if result {
            if actual < cap {
                while new_result && actual < cap
                    invariant
                        decimal <= actual <= cap,
                        cap == -MIN_10_EXP64,
                        diff == abs_diff64(a, b),
                        new_result == le64(diff, thresh64(actual as int)),
                        forall|e: int|
                            decimal as int <= e < actual as int ==> le64(
                                diff,
                                #[trigger] thresh64(e),
                            ),
                        !new_result ==> decimal < actual,
                    decreases cap - actual,
                {
                    actual = actual + 1;
                    new_result = thresh_le64(diff, actual);
                }
                if actual < cap {
                    actual = actual - 1;
                }
            }
        } else {
            if actual > floor {
                while !new_result && actual > floor
                    invariant
                        floor <= actual <= decimal,
                        floor == -MAX_10_EXP64,
                        diff == abs_diff64(a, b),
                        new_result == le64(diff, thresh64(actual as int)),
                        forall|e: int|
                            (actual as int) < e && e <= decimal as int ==> !le64(
                                diff,
                                #[trigger] thresh64(e),
                            ),
                        new_result ==> actual < decimal,
                    decreases actual - floor,
                {
                    actual = actual - 1;
                    new_result = thresh_le64(diff, actual);
                }
            }
        }
        proof {
            if result {
                assert forall|e: int|
                    dec_floor64() <= e <= decimal as int implies decimal_verdict64(a, b, e) by {
                    assert(le64(thresh64(decimal as int), thresh64(e)));
                }
            }
            if float_eq64(a, b) {
                assert(diff == 0);
                assert forall|e: int| le64(diff, #[trigger] thresh64(e)) by {
                    assert(!is_nan64(thresh64(e)) && !sign64(thresh64(e)));
                    assert(key64(diff) == 0);
                    assert(key64(thresh64(e)) >= 0);
                }
            }
        }
        (result, actual)
    }

    fn is_equal_to_atol(&self, other: Self, atol: Self) -> (r: (bool, Self))
        ensures
            r.0 == atol_verdict64(self.bits, other.bits, atol.bits),
            r.1.bits == atol_diff64(self.bits, other.bits),
            is_finite64(self.bits) && is_finite64(other.bits) && float_eq64(self.bits, other.bits)
                ==> r.1.bits == 0,
    {
        if self.is_nan() && other.is_nan() {
            (true, Float64 { bits: 0 })
        } else if self.is_nan() || other.is_nan() {
            (atol.is_nan(), Float64 { bits: NAN64 })
        } else if self.is_infinite() && other.is_infinite() && ((self.bits >= SIGN64) == (
        other.bits >= SIGN64)) {
            (true, Float64 { bits: 0 })
        } else {
            let diff: u64 = abs_diff_bits64(self.bits, other.bits);
            let v: bool = le_bits64(diff, atol.bits);
            (v, Float64 { bits: diff })
        }
    }

    fn is_equal_to_rtol(&self, other: Self, rtol: Self) -> (r: (bool, Self))
        ensures
            r.0 == rtol_verdict64(self.bits, other.bits, rtol.bits),
            r.1.bits == rtol_diff64(self.bits, other.bits),
            rtol_verdict64(self.bits, other.bits, rtol.bits) == rtol_verdict64(
                other.bits,
                self.bits,
                rtol.bits,
            ),
            is_finite64(self.bits) && is_finite64(other.bits) && float_eq64(self.bits, other.bits)
                ==> r.1.bits == 0,
    {
        let a: u64 = self.bits;
        let b: u64 = other.bits;
        if self.is_zero() && other.is_zero() {
            (true, Float64 { bits: 0 })
        } else if self.is_nan() && other.is_nan() {
            (true, Float64 { bits: 0 })
        } else if self.is_infinite() && other.is_infinite() {
            if (a >= SIGN64) == (b >= SIGN64) {
                (true, Float64 { bits: 0 })
            } else {
                (rtol.bits == ONE64, Float64 { bits: ONE64 })
            }
        } else if self.is_nan() || other.is_nan() {
            (rtol.bits == ONE64, Float64 { bits: ONE64 })
        } else if self.is_infinite() || other.is_infinite() {
            (rtol.bits == ONE64, Float64 { bits: ONE64 })
        } else {
            let diff: u64 = abs_diff_bits64(a, b);
            let ma: u64 = mag_bits64(a);
            let mb: u64 = mag_bits64(b);
            let mx: u64 = if le_bits64(ma, mb) {
                mb
            } else {
                ma
            };
            proof {
                assert(mx == max_mag64(a, b));
                assert(max_mag64(a, b) == max_mag64(b, a));
                assert(abs_diff64(a, b) == abs_diff64(b, a));
            }
            let bound: u64 = apf_mul64(rtol.bits, mx);
            let v: bool = le_bits64(diff, bound);
            let rd: u64 = apf_div64(diff, mx);
            (v, Float64 { bits: rd })
        }
    }
}

// ---------------------------------------------------------------------------
// The 32-bit width
// ---------------------------------------------------------------------------

/// Exact equality of two bit patterns of this width: ordinary IEEE 754
/// equality, except that a NaN equals every NaN.
pub open spec fn spec_is_equal32(x: u32, y: u32) -> bool {
    if is_nan32(x) || is_nan32(y) {
        is_nan32(x) && is_nan32(y)
    } else {
        float_eq32(x, y)
    }
}

/// Whether a pair of operands falls to one of the decimal-precision edge
/// cases: any NaN or any infinity.
pub open spec fn special32(x: u32, y: u32) -> bool {
    is_nan32(x) || is_nan32(y) || is_inf32(x) || is_inf32(y)
}

/// The decimal-precision ceiling of this width: the precision reported
/// for values the width cannot tell apart.
pub open spec fn dec_ceiling32() -> int {
    -MIN_10_EXP32
}

/// The decimal-precision floor of this width: the precision reported for
/// values that agree nowhere.
pub open spec fn dec_floor32() -> int {
    -MAX_10_EXP32
}

/// The decimal-precision threshold: `1.5 * 10^-d` of this width.
pub open spec fn thresh32(d: int) -> u32 {
    mul_bits32(THREE_HALVES32, pow_ten32(-d))
}

/// The decimal-precision relation on finite operands: `|x-y| <= 1.5 *
/// 10^-d`, all of it rounded to this width.
pub open spec fn dtest32(x: u32, y: u32, d: int) -> bool {
    le32(abs_diff32(x, y), thresh32(d))
}

/// The verdict of equality to `d` decimal places: NaN equals only NaN (at
/// any precision), equal infinities are equal at any precision, a lone
/// NaN or infinity agrees only at the floor precision, and finite pairs
/// go by the threshold relation.
pub open spec fn decimal_verdict32(x: u32, y: u32, d: int) -> bool {
    if is_nan32(x) || is_nan32(y) {
        if is_nan32(x) && is_nan32(y) {
            true
        } else {
            d == dec_floor32()
        }
    } else if is_inf32(x) || is_inf32(y) {
        if is_inf32(x) && is_inf32(y) && float_eq32(x, y) {
            true
        } else {
            d == dec_floor32()
        }
    } else {
        dtest32(x, y, d)
    }
}

/// The verdict of absolute-tolerance equality: two NaNs are equal, a lone
/// NaN is within a NaN tolerance only, equal-signed infinities are equal,
/// and every other pair goes by `|x-y| <= atol`.
pub open spec fn atol_verdict32(x: u32, y: u32, t: u32) -> bool {
    if is_nan32(x) && is_nan32(y) {
        true
    } else if is_nan32(x) || is_nan32(y) {
        is_nan32(t)
    } else if is_inf32(x) && is_inf32(y) && sign32(x) == sign32(y) {
        true
    } else {
        le32(abs_diff32(x, y), t)
    }
}

/// The absolute difference that absolute-tolerance equality reports.
pub open spec fn atol_diff32(x: u32, y: u32) -> u32 {
    if is_nan32(x) && is_nan32(y) {
        0
    } else if is_nan32(x) || is_nan32(y) {
        NAN32
    } else if is_inf32(x) && is_inf32(y) && sign32(x) == sign32(y) {
        0
    } else {
        abs_diff32(x, y)
    }
}

/// The verdict of relative-tolerance equality: two zeros, two NaNs or two
/// equal-signed infinities are equal; opposite infinities, a lone NaN or
/// a lone infinity are 100% apart and within tolerance only when the
/// tolerance is exactly one; and finite pairs go by
/// `|x-y| <= rtol * max(|x|, |y|)`.
pub open spec fn rtol_verdict32(x: u32, y: u32, t: u32) -> bool {
    if is_zero32(x) && is_zero32(y) {
        true
    } else if is_nan32(x) && is_nan32(y) {
        true
    } else if is_inf32(x) && is_inf32(y) {
        if sign32(x) == sign32(y) {
            true
        } else {
            t == ONE32
        }
    } else if is_nan32(x) || is_nan32(y) {
        t == ONE32
    } else if is_inf32(x) || is_inf32(y) {
        t == ONE32
    } else {
        le32(abs_diff32(x, y), mul_bits32(t, max_mag32(x, y)))
    }
}

/// The relative difference that relative-tolerance equality reports,
/// clamped to one (100%) for the mixed edge cases.
pub open spec fn rtol_diff32(x: u32, y: u32) -> u32 {
    if is_zero32(x) && is_zero32(y) {
        0
    } else if is_nan32(x) && is_nan32(y) {
        0
    } else if is_inf32(x) && is_inf32(y) {
        if sign32(x) == sign32(y) {
            0
        } else {
            ONE32
        }
    } else if is_nan32(x) || is_nan32(y) {
        ONE32
    } else if is_inf32(x) || is_inf32(y) {
        ONE32
    } else {
        div_bits32(abs_diff32(x, y), max_mag32(x, y))
    }
}

/// Tests `diff <= 1.5 * 10^-d` for this width, and carries the two facts
/// about the threshold family that the searches lean on: thresholds fall
/// as `d` rises, and a threshold is never NaN and never negative.
fn thresh_le32(diff: u32, d: i32) -> (r: bool)
    ensures
        r == le32(diff, thresh32(d as int)),
        forall|d1: int, d2: int| d1 <= d2 ==> le32(#[trigger] thresh32(d2), #[trigger] thresh32(d1)),
        forall|d1: int| !is_nan32(#[trigger] thresh32(d1)) && !sign32(thresh32(d1)),
{
    let p: u32 = apf_pow_ten32(-(d as i64));
    let t: u32 = apf_mul32(THREE_HALVES32, p);
    proof {
        assert forall|d1: int| !is_nan32(#[trigger] thresh32(d1)) && !sign32(thresh32(d1)) by {
            assert(!is_nan32(pow_ten32(-d1)) && !sign32(pow_ten32(-d1)));
            assert(!is_nan32(mul_bits32(THREE_HALVES32, pow_ten32(-d1))));
        }
        assert forall|d1: int, d2: int| d1 <= d2 implies le32(
            #[trigger] thresh32(d2),
            #[trigger] thresh32(d1),
        ) by {
            assert(le32(pow_ten32(-d2), pow_ten32(-d1)));
            assert(le32(
                mul_bits32(THREE_HALVES32, pow_ten32(-d2)),
                mul_bits32(THREE_HALVES32, pow_ten32(-d1)),
            ));
        }
    }
    le_bits32(diff, t)
}

impl Compare for Float32 {
    fn is_equal(&self, other: Self) -> (r: bool)
        ensures
            r == spec_is_equal32(self.bits, other.bits),
    {
        if self.is_nan() || other.is_nan() {
            return self.is_nan() && other.is_nan();
        }
        float_eq_bits32(self.bits, other.bits)
    }

    fn is_equal_to_decimal(&self, other: Self, decimal: i32) -> (r: (bool, i32))
        ensures
            r.0 == decimal_verdict32(self.bits, other.bits, decimal as int),
            special32(self.bits, other.bits) ==> r.1 as int == (if (is_nan32(self.bits)
                && is_nan32(other.bits)) || (is_inf32(self.bits) && is_inf32(other.bits)
                && float_eq32(self.bits, other.bits)) {
                dec_ceiling32()
            } else {
                dec_floor32()
            }),
            !special32(self.bits, other.bits) && r.0 && decimal as int >= dec_ceiling32()
                ==> r.1 == decimal,
            !special32(self.bits, other.bits) && r.0 && (decimal as int) < dec_ceiling32() ==> {
                &&& decimal as int <= r.1 as int && r.1 as int <= dec_ceiling32()
                &&& forall|e: int|
                    decimal as int <= e <= r.1 as int && e < dec_ceiling32() ==> dtest32(
                        self.bits,
                        other.bits,
                        e,
                    )
                &&& (r.1 as int) < dec_ceiling32() ==> !dtest32(
                    self.bits,
                    other.bits,
                    r.1 as int + 1,
                )
            },
            !special32(self.bits, other.bits) && !r.0 && decimal as int <= dec_floor32()
                ==> r.1 == decimal,
            !special32(self.bits, other.bits) && !r.0 && decimal as int > dec_floor32() ==> {
                &&& dec_floor32() <= r.1 as int && (r.1 as int) < decimal as int
                &&& forall|e: int|
                    (r.1 as int) < e && e <= decimal as int ==> !dtest32(self.bits, other.bits, e)
                &&& (r.1 as int > dec_floor32() ==> dtest32(self.bits, other.bits, r.1 as int))
            },
            r.0 ==> forall|e: int|
                dec_floor32() <= e <= decimal as int ==> decimal_verdict32(
                    self.bits,
                    other.bits,
                    e,
                ),
            !special32(self.bits, other.bits) && float_eq32(self.bits, other.bits) ==> r.0
                && r.1 as int == (if decimal as int <= dec_ceiling32() {
                dec_ceiling32()
            } else {
                decimal as int
            }),
    {
        let a: u32 = self.bits;
        let b: u32 = other.bits;
        if self.is_nan() || other.is_nan() {
            if self.is_nan() && other.is_nan() {
                return (true, -MIN_10_EXP32);
            }
            return (decimal == -MAX_10_EXP32, -MAX_10_EXP32);
        }
        if self.is_infinite() || other.is_infinite() {
            if self.is_infinite() && other.is_infinite() && float_eq_bits32(a, b) {
                return (true, -MIN_10_EXP32);
            }
            return (decimal == -MAX_10_EXP32, -MAX_10_EXP32);
        }
        let diff: u32 = abs_diff_bits32(a, b);
        let result: bool = thresh_le32(diff, decimal);
        let cap: i32 = -MIN_10_EXP32;
        let floor: i32 = -MAX_10_EXP32;
        let mut actual: i32 = decimal;
        let mut new_result: bool = result;
        if result {
            if actual < cap {
                while new_result && actual < cap
                    invariant
                        decimal <= actual <= cap,
                        cap == -MIN_10_EXP32,
                        diff == abs_diff32(a, b),
                        new_result == le32(diff, thresh32(actual as int)),
                        forall|e: int|
                            decimal as int <= e < actual as int ==> le32(
                                diff,
                                #[trigger] thresh32(e),
                            ),
                        !new_result ==> decimal < actual,
                    decreases cap - actual,
                {
                    actual = actual + 1;
                    new_result = thresh_le32(diff, actual);
                }
                if actual < cap {
                    actual = actual - 1;
                }
            }
        } else {
            if actual > floor {
                while !new_result && actual > floor
                    invariant
                        floor <= actual <= decimal,
                        floor == -MAX_10_EXP32,
                        diff == abs_diff32(a, b),
                        new_result == le32(diff, thresh32(actual as int)),
                        forall|e: int|
                            (actual as int) < e && e <= decimal as int ==> !le32(
                                diff,
                                #[trigger] thresh32(e),
                            ),
                        new_result ==> actual < decimal,
                    decreases actual - floor,
                {
                    actual = actual - 1;
                    new_result = thresh_le32(diff, actual);
                }
            }
        }
        proof {
            if result {
                assert forall|e: int|
                    dec_floor32() <= e <= decimal as int implies decimal_verdict32(a, b, e) by {
                    assert(le32(thresh32(decimal as int), thresh32(e)));
                }
            }
            if float_eq32(a, b) {
                assert(diff == 0);
                assert forall|e: int| le32(diff, #[trigger] thresh32(e)) by {
                    assert(!is_nan32(thresh32(e)) && !sign32(thresh32(e)));
                    assert(key32(diff) == 0);
                    assert(key32(thresh32(e)) >= 0);
                }
            }
        }
        (result, actual)
    }

    fn is_equal_to_atol(&self, other: Self, atol: Self) -> (r: (bool, Self))
        ensures
            r.0 == atol_verdict32(self.bits, other.bits, atol.bits),
            r.1.bits == atol_diff32(self.bits, other.bits),
            is_finite32(self.bits) && is_finite32(other.bits) && float_eq32(self.bits, other.bits)
                ==> r.1.bits == 0,
    {
        if self.is_nan() && other.is_nan() {
            (true, Float32 { bits: 0 })
        } else if self.is_nan() || other.is_nan() {
            (atol.is_nan(), Float32 { bits: NAN32 })
        } else if self.is_infinite() && other.is_infinite() && ((self.bits >= SIGN32) == (
        other.bits >= SIGN32)) {
            (true, Float32 { bits: 0 })
        } else {
            let diff: u32 = abs_diff_bits32(self.bits, other.bits);
            let v: bool = le_bits32(diff, atol.bits);
            (v, Float32 { bits: diff })
        }
    }

    fn is_equal_to_rtol(&self, other: Self, rtol: Self) -> (r: (bool, Self))
        ensures
            r.0 == rtol_verdict32(self.bits, other.bits, rtol.bits),
            r.1.bits == rtol_diff32(self.bits, other.bits),
            rtol_verdict32(self.bits, other.bits, rtol.bits) == rtol_verdict32(
                other.bits,
                self.bits,
                rtol.bits,
            ),
            is_finite32(self.bits) && is_finite32(other.bits) && float_eq32(self.bits, other.bits)
                ==> r.1.bits == 0,
    {
        let a: u32 = self.bits;
        let b: u32 = other.bits;
        if self.is_zero() && other.is_zero() {
            (true, Float32 { bits: 0 })
        } else if self.is_nan() && other.is_nan() {
            (true, Float32 { bits: 0 })
        } else if self.is_infinite() && other.is_infinite() {
            if (a >= SIGN32) == (b >= SIGN32) {
                (true, Float32 { bits: 0 })
            } else {
                (rtol.bits == ONE32, Float32 { bits: ONE32 })
            }
        } else if self.is_nan() || other.is_nan() {
            (rtol.bits == ONE32, Float32 { bits: ONE32 })
        } else if self.is_infinite() || other.is_infinite() {
            (rtol.bits == ONE32, Float32 { bits: ONE32 })
        } else {
            let diff: u32 = abs_diff_bits32(a, b);
            let ma: u32 = mag_bits32(a);
            let mb: u32 = mag_bits32(b);
            let mx: u32 = if le_bits32(ma, mb) {
                mb
            } else {
                ma
            };
            proof {
                assert(mx == max_mag32(a, b));
                assert(max_mag32(a, b) == max_mag32(b, a));
                assert(abs_diff32(a, b) == abs_diff32(b, a));
            }
            let bound: u32 = apf_mul32(rtol.bits, mx);
            let v: bool = le_bits32(diff, bound);
            let rd: u32 = apf_div32(diff, mx);
            (v, Float32 { bits: rd })
        }
    }
}

// ---------------------------------------------------------------------------
// Laws of exact equality
// ---------------------------------------------------------------------------

/// Exact equality of this width is reflexive: every value, NaN included,
/// equals itself.
pub proof fn lemma_is_equal_reflexive64(x: u64)
    ensures
        spec_is_equal64(x, x),
{
}

/// Any two NaNs of this width, whatever their signs and payloads, are
/// exactly equal.
pub proof fn lemma_nan_is_equal64(x: u64, y: u64)
    requires
        is_nan64(x),
        is_nan64(y),
    ensures
        spec_is_equal64(x, y),
{
}

/// Oppositely signed infinities of this width are not exactly equal.
pub proof fn lemma_opposite_infinities_unequal64(x: u64, y: u64)
    requires
        is_inf64(x),
        is_inf64(y),
        sign64(x) != sign64(y),
    ensures
        !spec_is_equal64(x, y),
{
}

/// Exact equality of this width is reflexive: every value, NaN included,
/// equals itself.
pub proof fn lemma_is_equal_reflexive32(x: u32)
    ensures
        spec_is_equal32(x, x),
{
}

/// Any two NaNs of this width, whatever their signs and payloads, are
/// exactly equal.
pub proof fn lemma_nan_is_equal32(x: u32, y: u32)
    requires
        is_nan32(x),
        is_nan32(y),
    ensures
        spec_is_equal32(x, y),
{
}

/// Oppositely signed infinities of this width are not exactly equal.
pub proof fn lemma_opposite_infinities_unequal32(x: u32, y: u32)
    requires
        is_inf32(x),
        is_inf32(y),
        sign32(x) != sign32(y),
    ensures
        !spec_is_equal32(x, y),
{
}

} // verus!
