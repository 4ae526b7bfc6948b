//! Saturating fixed-point scalars.
//!
//! A scalar is an `i64` standing for `raw / FX_ONE`. Sums, differences,
//! products and quotients are computed exactly in wide integers, truncated
//! toward zero where a division is involved, and clamped into
//! `[-FX_HUGE, FX_HUGE]`. Division by zero yields the saturation bound with
//! the sign of the numerator, which is how the slab test of the bounding
//! boxes tolerates rays that are parallel to an axis.

use vstd::prelude::*;

verus! {

/// One unit: scalars carry sixteen fractional bits.
pub const FX_ONE: i64 = 65536;

/// Half of one unit.
pub const FX_HALF: i64 = 32768;

/// The saturation bound, standing in for an infinite value.
pub const FX_HUGE: i64 = 0x4000_0000_0000_0000;

/// Magnitude of a mathematical integer.
pub open spec fn iabs(x: int) -> int {
    if x < 0 {
        -x
    } else {
        x
    }
}

/// Clamp a mathematical integer into the representable range.
pub open spec fn sat(x: int) -> int {
    if x > FX_HUGE {
        FX_HUGE as int
    } else if x < -(FX_HUGE as int) {
        -(FX_HUGE as int)
    } else {
        x
    }
}

/// Division truncating toward zero: the quotient of the magnitudes with the
/// usual sign rule.
pub open spec fn div_trunc(a: int, b: int) -> int
    recommends
        b != 0,
{
    if (a < 0) <==> (b < 0) {
        iabs(a) / iabs(b)
    } else {
        -(iabs(a) / iabs(b))
    }
}

/// The value of a saturating fixed-point sum.
pub open spec fn fx_add_v(a: int, b: int) -> int {
    sat(a + b)
}

/// The value of a saturating fixed-point difference.
pub open spec fn fx_sub_v(a: int, b: int) -> int {
    sat(a - b)
}

/// The value of a fixed-point negation.
pub open spec fn fx_neg_v(a: int) -> int {
    sat(-a)
}

/// The value of a saturating fixed-point product.
pub open spec fn fx_mul_v(a: int, b: int) -> int {
    sat(div_trunc(a * b, FX_ONE as int))
}

/// The value of a saturating fixed-point quotient. A zero divisor saturates
/// with the sign of the numerator.
pub open spec fn fx_div_v(a: int, b: int) -> int {
    if b == 0 {
        if a >= 0 {
            FX_HUGE as int
        } else {
            -(FX_HUGE as int)
        }
    } else {
        sat(div_trunc(a * (FX_ONE as int), b))
    }
}

/// Magnitude of an `i64` as an unsigned wide integer.
fn mag(a: i64) -> (m: u128)
    ensures
        m == iabs(a as int),
{
    if a < 0 {
        (-(a as i128)) as u128
    } else {
        a as u128
    }
}

/// Clamp a magnitude into range and reapply its sign.
fn sat_signed(q: u128, neg: bool) -> (r: i64)
    ensures
        r == sat(if neg { -(q as int) } else { q as int }),
{
    if neg {
        if q >= FX_HUGE as u128 {
            -FX_HUGE
        } else {
            -(q as i64)
        }
    } else {
        if q >= FX_HUGE as u128 {
            FX_HUGE
        } else {
            q as i64
        }
    }
}

/// Saturating sum.
pub fn fx_add(a: i64, b: i64) -> (r: i64)
    ensures
        r == fx_add_v(a as int, b as int),
{
    let s: i128 = a as i128 + b as i128;
    if s > FX_HUGE as i128 {
        FX_HUGE
    } else if s < -(FX_HUGE as i128) {
        -FX_HUGE
    } else {
        s as i64
    }
}

/// Saturating difference.
pub fn fx_sub(a: i64, b: i64) -> (r: i64)
    ensures
        r == fx_sub_v(a as int, b as int),
{
    let s: i128 = a as i128 - b as i128;
    if s > FX_HUGE as i128 {
        FX_HUGE
    } else if s < -(FX_HUGE as i128) {
        -FX_HUGE
    } else {
        s as i64
    }
}

/// Saturating negation.
pub fn fx_neg(a: i64) -> (r: i64)
    ensures
        r == fx_neg_v(a as int),
{
    let s: i128 = -(a as i128);
    if s > FX_HUGE as i128 {
        FX_HUGE
    } else if s < -(FX_HUGE as i128) {
        -FX_HUGE
    } else {
        s as i64
    }
}

proof fn lemma_abs_mul(a: int, b: int)
    ensures
        iabs(a * b) == iabs(a) * iabs(b),
        a * b > 0 ==> ((a < 0) <==> (b < 0)),
        a * b < 0 ==> ((a < 0) != (b < 0)),
{
    assert(iabs(a * b) == iabs(a) * iabs(b)) by (nonlinear_arith);
    assert(a * b > 0 ==> ((a < 0) <==> (b < 0))) by (nonlinear_arith);
    assert(a * b < 0 ==> ((a < 0) != (b < 0))) by (nonlinear_arith);
}

/// Saturating product of two scalars, truncated toward zero.
pub fn fx_mul(a: i64, b: i64) -> (r: i64)
    ensures
        r == fx_mul_v(a as int, b as int),
{
    let neg = (a < 0) != (b < 0);
    let am = mag(a);
    let bm = mag(b);
    proof {
        assert(am * bm <= 0x8000_0000_0000_0000u128 * 0x8000_0000_0000_0000u128)
            by (nonlinear_arith)
            requires
                am <= 0x8000_0000_0000_0000u128,
                bm <= 0x8000_0000_0000_0000u128,
        ;
        lemma_abs_mul(a as int, b as int);
    }
    let q = (am * bm) / 65536;
    sat_signed(q, neg)
}

/// Saturating quotient of two scalars, truncated toward zero; a zero divisor
/// saturates with the sign of the numerator.
pub fn fx_div(a: i64, b: i64) -> (r: i64)
    ensures
        r == fx_div_v(a as int, b as int),
{
    if b == 0 {
        if a >= 0 {
            FX_HUGE
        } else {
            -FX_HUGE
        }
    } else {
        let neg = (a < 0) != (b < 0);
        let am = mag(a);
        let bm = mag(b);
        proof {
            lemma_abs_mul(a as int, FX_ONE as int);
        }
        let q = (am * 65536) / bm;
        sat_signed(q, neg)
    }
}

/// The smaller of two scalars.
pub fn fx_min(a: i64, b: i64) -> (r: i64)
    ensures
        r == if a <= b { a } else { b },
{
    if a <= b {
        a
    } else {
        b
    }
}

/// The larger of two scalars.
pub fn fx_max(a: i64, b: i64) -> (r: i64)
    ensures
        r == if a >= b { a } else { b },
{
    if a >= b {
        a
    } else {
        b
    }
}

/// Magnitude of a scalar, saturated.
pub fn fx_abs(a: i64) -> (r: i64)
    ensures
        r == sat(iabs(a as int)),
{
    if a < 0 {
        fx_neg(a)
    } else if a > FX_HUGE {
        FX_HUGE
    } else {
        a
    }
}

/// The scalar standing for the integer `n`.
pub fn fx_from_int(n: i64) -> (r: i64)
    ensures
        r == sat(n * (FX_ONE as int)),
{
    let p: i128 = (n as i128) * 65536;
    if p > FX_HUGE as i128 {
        FX_HUGE
    } else if p < -(FX_HUGE as i128) {
        -FX_HUGE
    } else {
        p as i64
    }
}

/// A product with a factor in the unit interval never grows: for
/// `0 <= a <= FX_HUGE` and `0 <= u <= FX_ONE`, the fixed-point product
/// `a * u` stays within `[0, a]`.
pub proof fn lemma_mul_unit_range(a: int, u: int)
    requires
        0 <= a <= FX_HUGE,
        0 <= u <= FX_ONE,
    ensures
        0 <= fx_mul_v(a, u) <= a,
{
    assert(0 <= a * u <= a * (FX_ONE as int)) by (nonlinear_arith)
        requires
            0 <= a,
            0 <= u <= FX_ONE,
    ;
    vstd::arithmetic::div_mod::lemma_div_is_ordered(a * u, a * (FX_ONE as int), FX_ONE as int);
    assert(a * (FX_ONE as int) == (FX_ONE as int) * a) by (nonlinear_arith);
    vstd::arithmetic::div_mod::lemma_div_multiples_vanish(a, FX_ONE as int);
}

/// The scalar standing for the fraction of two whole numbers `n / d`,
/// truncated toward zero.
pub fn fx_ratio(n: i64, d: i64) -> (r: i64)
    ensures
        r == fx_div_v(sat(n * (FX_ONE as int)), sat(d * (FX_ONE as int))),
{
    let nf = fx_from_int(n);
    let df = fx_from_int(d);
    fx_div(nf, df)
}

} // verus!
