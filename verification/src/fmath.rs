//! Square roots, logarithms and trigonometry over the fixed-point scalars.
//!
//! The square root is exact: it returns the floor of the real square root of
//! the represented value. The logarithm and the trigonometric functions are
//! polynomial or digit-by-digit approximations, each pinned to a spec-level
//! mirror of its own computation.

use vstd::prelude::*;
use crate::fixed::{
    fx_abs, fx_add, fx_add_v, fx_div, fx_div_v, fx_mul, fx_mul_v, fx_sub, fx_sub_v, iabs, sat,
    FX_HALF, FX_ONE,
};
use vstd::arithmetic::power2::pow2;

verus! {

/// The angle pi in fixed-point units.
pub const FX_PI: i64 = 205887;

/// Twice pi in fixed-point units.
pub const FX_TWO_PI: i64 = 411774;

/// Half of pi in fixed-point units, rounded up so that the arccosine of
/// zero divided by pi lands exactly on one half.
pub const FX_HALF_PI: i64 = 102944;

/// A quarter of pi in fixed-point units.
pub const FX_QUARTER_PI: i64 = 51472;

/// The natural logarithm of two in fixed-point units.
pub const FX_LN2: i64 = 45426;

/// Floor of the square root of a natural number, by the classical
/// divide-by-four recurrence.
pub open spec fn isqrt_spec(n: nat) -> nat
    decreases n,
{
    if n == 0 {
        0
    } else {
        let s = 2 * isqrt_spec((n / 4) as nat);
        if (s + 1) * (s + 1) <= n {
            s + 1
        } else {
            s
        }
    }
}

proof fn lemma_isqrt_spec(n: nat)
    ensures
        isqrt_spec(n) * isqrt_spec(n) <= n,
        n < (isqrt_spec(n) + 1) * (isqrt_spec(n) + 1),
    decreases n,
{
    if n == 0 {
    } else {
        let m = (n / 4) as nat;
        lemma_isqrt_spec(m);
        let q = isqrt_spec(m);
        let s = 2 * q;
        vstd::arithmetic::div_mod::lemma_fundamental_div_mod(n as int, 4);
        assert(4 * m <= n && n <= 4 * m + 3);
        assert(s * s == 4 * (q * q)) by (nonlinear_arith)
            requires
                s == 2 * q,
        ;
        assert(4 * (q * q) <= 4 * m);
        assert((s + 2) * (s + 2) == 4 * ((q + 1) * (q + 1))) by (nonlinear_arith)
            requires
                s == 2 * q,
        ;
        assert(4 * m + 3 < 4 * ((q + 1) * (q + 1)));
        assert(isqrt_spec(n) == if (s + 1) * (s + 1) <= n {
            s + 1
        } else {
            s
        });
        if (s + 1) * (s + 1) <= n {
            assert(isqrt_spec(n) == s + 1);
            assert(isqrt_spec(n) * isqrt_spec(n) <= n);
            assert(isqrt_spec(n) + 1 == s + 2);
            assert((isqrt_spec(n) + 1) * (isqrt_spec(n) + 1) == (s + 2) * (s + 2));
            assert(n < (s + 2) * (s + 2));
            assert(n < (isqrt_spec(n) + 1) * (isqrt_spec(n) + 1));
        } else {
            assert(isqrt_spec(n) == s);
            assert(isqrt_spec(n) * isqrt_spec(n) == 4 * (q * q));
            assert(isqrt_spec(n) * isqrt_spec(n) <= n);
            assert(n < (isqrt_spec(n) + 1) * (isqrt_spec(n) + 1));
        }
    }
    if n == 0 {
        assert(isqrt_spec(n) == 0);
        assert((isqrt_spec(n) + 1) * (isqrt_spec(n) + 1) == 1) by (nonlinear_arith)
            requires
                isqrt_spec(n) == 0,
        ;
        assert(isqrt_spec(n) * isqrt_spec(n) <= n) by (nonlinear_arith)
            requires
                isqrt_spec(n) == 0,
                n == 0,
        ;
    }
}

proof fn lemma_sqrt_unique(x: int, r1: int, r2: int)
    requires
        0 <= r1,
        0 <= r2,
        r1 * r1 <= x < (r1 + 1) * (r1 + 1),
        r2 * r2 <= x < (r2 + 1) * (r2 + 1),
    ensures
        r1 == r2,
{
    if r1 < r2 {
        assert((r1 + 1) * (r1 + 1) <= r2 * r2) by (nonlinear_arith)
            requires
                0 <= r1,
                r1 + 1 <= r2,
        ;
    }
    if r2 < r1 {
        assert((r2 + 1) * (r2 + 1) <= r1 * r1) by (nonlinear_arith)
            requires
                0 <= r2,
                r2 + 1 <= r1,
        ;
    }
}

/// Floor square root of a wide unsigned integer, by binary search.
fn isqrt_u128(x: u128) -> (r: u128)
    ensures
        r == isqrt_spec(x as nat),
        r * r <= x,
        x < (r + 1) * (r + 1),
{
    let mut lo: u128 = 0;
    let mut hi: u128 = 0x1_0000_0000_0000_0000;
    proof {
        assert((hi as int) * (hi as int) > x as int) by (nonlinear_arith)
            requires
                hi == 0x1_0000_0000_0000_0000u128,
                x <= 0xffff_ffff_ffff_ffff_ffff_ffff_ffff_ffffu128,
        ;
    }
    while lo + 1 < hi
        invariant
            lo < hi,
            hi <= 0x1_0000_0000_0000_0000u128,
            (lo as int) * (lo as int) <= x as int,
            (hi as int) * (hi as int) > x as int,
        decreases hi - lo,
    {
        let mid = lo + (hi - lo) / 2;
        proof {
            assert((mid as int) * (mid as int) < 0x1_0000_0000_0000_0000_0000_0000_0000_0000)
                by (nonlinear_arith)
                requires
                    mid < 0x1_0000_0000_0000_0000u128,
            ;
        }
        if mid * mid <= x {
            lo = mid;
        } else {
            hi = mid;
        }
    }
    proof {
        lemma_isqrt_spec(x as nat);
        lemma_sqrt_unique(x as int, lo as int, isqrt_spec(x as nat) as int);
    }
    lo
}

/// The fixed-point square root: floor of the square root of the represented
/// value, or zero for a negative argument.
pub open spec fn fx_sqrt_v(a: int) -> int {
    if a < 0 {
        0
    } else {
        isqrt_spec((a * (FX_ONE as int)) as nat) as int
    }
}

/// Square root of a fixed-point scalar; a negative argument yields zero.
pub fn fx_sqrt(a: i64) -> (r: i64)
    ensures
        r == fx_sqrt_v(a as int),
        r >= 0,
        a >= 0 ==> (r * r <= a * (FX_ONE as int) && a * (FX_ONE as int) < (r + 1) * (r + 1)),
{
    if a < 0 {
        0
    } else {
        let x = (a as u128) * 65536;
        let r = isqrt_u128(x);
        proof {
            let ri = r as int;
            if ri >= 0x100_0000_0000 {
                vstd::arithmetic::mul::lemma_mul_inequality(0x100_0000_0000int, ri, ri);
                vstd::arithmetic::mul::lemma_mul_inequality(
                    0x100_0000_0000int,
                    ri,
                    0x100_0000_0000int,
                );
                assert(0x100_0000_0000int * 0x100_0000_0000int == 0x1_0000_0000_0000_0000_0000)
                    by (nonlinear_arith);
                assert(false);
            }
        }
        r as i64
    }
}

/// The normalization the logarithm starts from: double a positive mantissa
/// until it leaves `[1, FX_HALF]`, counting the doublings.
pub open spec fn neg_log2_norm_v(v: int, e: int) -> (int, int)
    decreases FX_ONE - v,
{
    if 1 <= v <= FX_HALF {
        neg_log2_norm_v(2 * v, e + 1)
    } else {
        (v, e)
    }
}

/// The fractional bits of the logarithm: square the mantissa `steps` times,
/// emitting a bit whenever the square falls to the lower half-interval.
pub open spec fn neg_log2_frac_v(v: int, steps: int) -> int
    decreases steps,
{
    if steps <= 0 {
        0
    } else {
        let w = crate::fixed::fx_mul_v(v, v);
        if w <= FX_HALF {
            pow2((steps - 1) as nat) + neg_log2_frac_v(2 * w, steps - 1)
        } else {
            neg_log2_frac_v(w, steps - 1)
        }
    }
}

/// The dyadic approximation of `-log2(u)`: the doubling count as the integer
/// part, sixteen squaring bits as the fraction.
pub open spec fn neg_log2_v(u: int) -> int {
    let n = neg_log2_norm_v(u, 0);
    n.1 * (FX_ONE as int) + neg_log2_frac_v(n.0, 16)
}

/// Approximation of `-log2(u)` for `u` in `(0, FX_ONE]`, by normalizing into
/// `(FX_HALF, FX_ONE]` and extracting sixteen fractional bits by repeated
/// squaring. Exact at `u == FX_ONE`, and exactly the spec-level
/// `neg_log2_v`.
pub fn fx_neg_log2(u: i64) -> (r: i64)
    requires
        0 < u <= FX_ONE,
    ensures
        r == neg_log2_v(u as int),
        0 <= r < 17 * (FX_ONE as int),
        u == FX_ONE ==> r == 0,
{
    let mut v = u;
    let mut e: i64 = 0;
    proof {
        vstd::arithmetic::power2::lemma2_to64();
    }
    while v <= FX_HALF
        invariant
            1 <= v <= FX_ONE,
            0 <= e <= 16,
            v as int >= pow2(e as nat),
            u == FX_ONE ==> (v == FX_ONE && e == 0),
            neg_log2_norm_v(u as int, 0) == neg_log2_norm_v(v as int, e as int),
        decreases FX_ONE - v,
    {
        proof {
            vstd::arithmetic::power2::lemma2_to64();
            assert(pow2((e + 1) as nat) == 2 * pow2(e as nat)) by {
                vstd::arithmetic::power2::lemma_pow2_unfold((e + 1) as nat);
            }
            if e == 16 {
                assert(v as int >= pow2(16));
                assert(false);
            }
        }
        v = v * 2;
        e = e + 1;
    }
    proof {
        assert(neg_log2_norm_v(v as int, e as int) == (v as int, e as int));
    }
    let ghost vnorm = v as int;
    let mut frac: i64 = 0;
    let mut i: usize = 0;
    while i < 16
        invariant
            FX_HALF <= v <= FX_ONE,
            i <= 16,
            0 <= frac,
            frac as int <= pow2(i as nat) - 1,
            u == FX_ONE ==> (v == FX_ONE && frac == 0 && e == 0),
            0 <= e <= 16,
            neg_log2_frac_v(vnorm, 16) == frac * pow2((16 - i) as nat) + neg_log2_frac_v(
                v as int,
                16 - i,
            ),
        decreases 16 - i,
    {
        proof {
            vstd::arithmetic::power2::lemma2_to64();
            assert(pow2((i + 1) as nat) == 2 * pow2(i as nat)) by {
                vstd::arithmetic::power2::lemma_pow2_unfold((i + 1) as nat);
            }
            assert((v as int) * (v as int) >= 0x4000_0000) by (nonlinear_arith)
                requires
                    v as int >= 0x8000,
            ;
            assert((v as int) * (v as int) <= 0x1_0000_0000) by (nonlinear_arith)
                requires
                    0 < v as int <= 0x1_0000,
            ;
            vstd::arithmetic::div_mod::lemma_div_is_ordered(
                0x4000_0000,
                (v as int) * (v as int),
                65536,
            );
            vstd::arithmetic::div_mod::lemma_div_is_ordered(
                (v as int) * (v as int),
                0x1_0000_0000,
                65536,
            );
            if u == FX_ONE {
                assert(65536int * 65536int == 0x1_0000_0000) by (nonlinear_arith);
                vstd::arithmetic::div_mod::lemma_fundamental_div_mod_converse(
                    0x1_0000_0000int,
                    65536int,
                    65536int,
                    0int,
                );
            }
        }
        proof {
            assert(pow2((16 - i) as nat) == 2 * pow2((15 - i) as nat)) by {
                vstd::arithmetic::power2::lemma_pow2_unfold((16 - i) as nat);
            }
        }
        let ghost frac0 = frac as int;
        let ghost v0 = v as int;
        let w = fx_mul(v, v);
        if w <= FX_HALF {
            frac = frac * 2 + 1;
            v = w * 2;
        } else {
            frac = frac * 2;
            v = w;
        }
        i = i + 1;
        proof {
            assert(neg_log2_frac_v(v0, 16 - i + 1) == (if crate::fixed::fx_mul_v(v0, v0)
                <= FX_HALF {
                pow2((16 - i) as nat) + neg_log2_frac_v(2 * crate::fixed::fx_mul_v(v0, v0), 16 - i)
            } else {
                neg_log2_frac_v(crate::fixed::fx_mul_v(v0, v0), 16 - i)
            }));
            assert(frac as int * pow2((16 - i) as nat) + neg_log2_frac_v(v as int, 16 - i)
                == frac0 * pow2((16 - i + 1) as nat) + neg_log2_frac_v(v0, 16 - i + 1))
                by (nonlinear_arith)
                requires
                    pow2((16 - i + 1) as nat) == 2 * pow2((16 - i) as nat),
                    frac as int == 2 * frac0 + (if crate::fixed::fx_mul_v(v0, v0) <= FX_HALF {
                        1int
                    } else {
                        0int
                    }),
                    neg_log2_frac_v(v0, 16 - i + 1) == (if crate::fixed::fx_mul_v(v0, v0)
                        <= FX_HALF {
                        pow2((16 - i) as nat) + neg_log2_frac_v(v as int, 16 - i)
                    } else {
                        neg_log2_frac_v(v as int, 16 - i)
                    }),
            ;
        }
    }
    proof {
        vstd::arithmetic::power2::lemma2_to64();
        assert(neg_log2_frac_v(v as int, 0) == 0);
        assert(frac as int * pow2(0) == frac as int) by (nonlinear_arith)
            requires
                pow2(0) == 1nat,
        ;
        assert(neg_log2_frac_v(vnorm, 16) == frac as int);
    }
    e * FX_ONE + frac
}

/// Euclidean remainder: the representative of `a` modulo `m` in `[0, m)`.
pub fn fx_mod(a: i64, m: i64) -> (r: i64)
    requires
        m > 0,
    ensures
        r == (a as int) % (m as int),
{
    if a >= 0 {
        ((a as u64) % (m as u64)) as i64
    } else {
        let am = (-(a as i128)) as u128;
        let rm = am % (m as u128);
        proof {
            let d = m as int;
            let qq = (am as int) / d;
            vstd::arithmetic::div_mod::lemma_fundamental_div_mod(am as int, d);
            assert(am as int == -(a as int));
            if rm == 0 {
                assert((-qq) * d + 0 == -(d * qq)) by (nonlinear_arith);
                vstd::arithmetic::div_mod::lemma_fundamental_div_mod_converse(a as int, d, -qq, 0);
            } else {
                assert((-qq - 1) * d + (d - rm as int) == -(d * qq) - rm as int)
                    by (nonlinear_arith);
                vstd::arithmetic::div_mod::lemma_fundamental_div_mod_converse(
                    a as int,
                    d,
                    -qq - 1,
                    d - rm,
                );
            }
        }
        if rm == 0 {
            0
        } else {
            m - (rm as i64)
        }
    }
}

/// The cubic-and-higher Taylor terms of the sine, over fixed-point ops.
pub open spec fn sin_poly_v(x: int) -> int {
    let x2 = fx_mul_v(x, x);
    let x3 = fx_mul_v(x2, x);
    let x5 = fx_mul_v(x3, x2);
    let x7 = fx_mul_v(x5, x2);
    let t3 = fx_div_v(x3, 6 * (FX_ONE as int));
    let t5 = fx_div_v(x5, 120 * (FX_ONE as int));
    let t7 = fx_div_v(x7, 5040 * (FX_ONE as int));
    fx_sub_v(fx_add_v(fx_sub_v(x, t3), t5), t7)
}

/// Taylor polynomial for the sine on `[-FX_HALF_PI, FX_HALF_PI]`.
fn sin_poly(x: i64) -> (r: i64)
    ensures
        r == sin_poly_v(x as int),
{
    let x2 = fx_mul(x, x);
    let x3 = fx_mul(x2, x);
    let x5 = fx_mul(x3, x2);
    let x7 = fx_mul(x5, x2);
    let t3 = fx_div(x3, 6 * FX_ONE);
    let t5 = fx_div(x5, 120 * FX_ONE);
    let t7 = fx_div(x7, 5040 * FX_ONE);
    fx_sub(fx_add(fx_sub(x, t3), t5), t7)
}

/// The sine of a fixed-point angle: reduce modulo two pi into `[-pi, pi)`,
/// fold into the central half-wave, then apply the Taylor polynomial.
pub open spec fn fx_sin_v(x: int) -> int {
    let m0 = x % (FX_TWO_PI as int);
    let m = if m0 >= FX_PI { m0 - FX_TWO_PI } else { m0 };
    let f = if m > FX_HALF_PI {
        FX_PI - m
    } else if m < -(FX_HALF_PI as int) {
        -(FX_PI as int) - m
    } else {
        m
    };
    sin_poly_v(f)
}

/// Sine of an angle given in fixed-point radians.
pub fn fx_sin(x: i64) -> (r: i64)
    ensures
        r == fx_sin_v(x as int),
{
    let m0 = fx_mod(x, FX_TWO_PI);
    let m = if m0 >= FX_PI {
        m0 - FX_TWO_PI
    } else {
        m0
    };
    let f = if m > FX_HALF_PI {
        FX_PI - m
    } else if m < -FX_HALF_PI {
        -FX_PI - m
    } else {
        m
    };
    sin_poly(f)
}

/// The cosine, as the sine shifted by a quarter turn.
pub open spec fn fx_cos_v(x: int) -> int {
    fx_sin_v(fx_add_v(x, FX_HALF_PI as int))
}

/// Cosine of an angle given in fixed-point radians.
pub fn fx_cos(x: i64) -> (r: i64)
    ensures
        r == fx_cos_v(x as int),
{
    let s = fx_add(x, FX_HALF_PI);
    fx_sin(s)
}

/// Arctangent approximation on `[0, FX_ONE]`:
/// `z * (pi/4 + K * (1 - z))` with `K` near `0.273`.
pub open spec fn atan_unit_v(z: int) -> int {
    fx_mul_v(z, fx_add_v(FX_QUARTER_PI as int, fx_mul_v(17891, fx_sub_v(FX_ONE as int, z))))
}

fn atan_unit(z: i64) -> (r: i64)
    ensures
        r == atan_unit_v(z as int),
{
    let k = fx_mul(17891, fx_sub(FX_ONE, z));
    fx_mul(z, fx_add(FX_QUARTER_PI, k))
}

/// The two-argument arctangent over fixed-point ops: octant reduction around
/// the unit-interval approximation. Zero when both arguments are zero.
pub open spec fn fx_atan2_v(y: int, x: int) -> int {
    if x == 0 && y == 0 {
        0
    } else {
        let ax = sat(iabs(x));
        let ay = sat(iabs(y));
        let base = if ax >= ay {
            atan_unit_v(fx_div_v(ay, ax))
        } else {
            (FX_HALF_PI as int) - atan_unit_v(fx_div_v(ax, ay))
        };
        let q = if x >= 0 {
            base
        } else {
            (FX_PI as int) - base
        };
        if y < 0 {
            -q
        } else {
            q
        }
    }
}

/// Angle of the point `(x, y)` in `(-pi, pi]`, measured from the positive
/// `x` axis; both arguments zero yield zero.
pub fn fx_atan2(y: i64, x: i64) -> (r: i64)
    ensures
        r == fx_atan2_v(y as int, x as int),
{
    if x == 0 && y == 0 {
        return 0;
    }
    let ax = fx_abs(x);
    let ay = fx_abs(y);
    let base = if ax >= ay {
        atan_unit(fx_div(ay, ax))
    } else {
        let t = atan_unit(fx_div(ax, ay));
        FX_HALF_PI - t
    };
    let q = if x >= 0 {
        base
    } else {
        FX_PI - base
    };
    if y < 0 {
        -q
    } else {
        q
    }
}

/// The arccosine in `[0, pi]`, through the arctangent of the complementary
/// leg.
pub open spec fn fx_acos_v(t: int) -> int {
    let s = fx_sqrt_v(fx_sub_v(FX_ONE as int, fx_mul_v(t, t)));
    fx_atan2_v(s, t)
}

/// Arccosine of a fixed-point scalar in `[-FX_ONE, FX_ONE]`.
pub fn fx_acos(t: i64) -> (r: i64)
    ensures
        r == fx_acos_v(t as int),
{
    let s = fx_sqrt(fx_sub(FX_ONE, fx_mul(t, t)));
    fx_atan2(s, t)
}

/// Floor of a fixed-point scalar as an integer: the greatest integer at most
/// the represented value.
pub fn fx_floor_int(a: i64) -> (r: i64)
    ensures
        r == (a as int) / (FX_ONE as int),
{
    if a >= 0 {
        ((a as u64) / 65536) as i64
    } else {
        let am = (-(a as i128)) as u128;
        let q = am / 65536;
        proof {
            let qq = (am as int) / 65536;
            let rr = (am as int) % 65536;
            vstd::arithmetic::div_mod::lemma_fundamental_div_mod(am as int, 65536);
            assert(am as int == -(a as int));
            if am % 65536 == 0 {
                assert((-qq) * 65536 + 0 == -(65536 * qq)) by (nonlinear_arith);
                vstd::arithmetic::div_mod::lemma_fundamental_div_mod_converse(
                    a as int,
                    65536,
                    -qq,
                    0,
                );
            } else {
                assert((-qq - 1) * 65536 + (65536 - rr) == -(65536 * qq) - rr)
                    by (nonlinear_arith);
                vstd::arithmetic::div_mod::lemma_fundamental_div_mod_converse(
                    a as int,
                    65536,
                    -qq - 1,
                    65536 - rr,
                );
            }
        }
        if am % 65536 == 0 {
            -(q as i64)
        } else {
            -(q as i64) - 1
        }
    }
}

} // verus!
