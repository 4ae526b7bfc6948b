//! Colors as fixed-point RGB triples, with the gamma conversion to
//! eight-bit channels.

use vstd::prelude::*;
use crate::fixed::{fx_add, fx_add_v, fx_div, fx_div_v, fx_mul, fx_mul_v, FX_ONE};
use crate::fmath::{fx_sqrt, fx_sqrt_v};
use crate::rng::random_unit_fx;
use crate::vec3::Vec3;

verus! {

/// The largest intensity a channel may reach before quantization, just
/// below one.
pub const FX_INTENSITY_MAX: i64 = 65470;

#[derive(Clone, Copy, PartialEq, Eq, Structural, Debug)]
pub struct Color {
    pub r: i64,
    pub g: i64,
    pub b: i64,
}

/// The componentwise sum of two colors.
pub open spec fn color_add_v(a: Color, b: Color) -> Color {
    Color {
        r: fx_add_v(a.r as int, b.r as int) as i64,
        g: fx_add_v(a.g as int, b.g as int) as i64,
        b: fx_add_v(a.b as int, b.b as int) as i64,
    }
}

/// The componentwise product of two colors: attenuation.
pub open spec fn color_mul_v(a: Color, b: Color) -> Color {
    Color {
        r: fx_mul_v(a.r as int, b.r as int) as i64,
        g: fx_mul_v(a.g as int, b.g as int) as i64,
        b: fx_mul_v(a.b as int, b.b as int) as i64,
    }
}

/// A color scaled by a fixed-point factor.
pub open spec fn color_scale_v(a: Color, s: int) -> Color {
    Color {
        r: fx_mul_v(a.r as int, s) as i64,
        g: fx_mul_v(a.g as int, s) as i64,
        b: fx_mul_v(a.b as int, s) as i64,
    }
}

/// A color divided componentwise by a fixed-point factor.
pub open spec fn color_div_scalar_v(a: Color, s: int) -> Color {
    Color {
        r: fx_div_v(a.r as int, s) as i64,
        g: fx_div_v(a.g as int, s) as i64,
        b: fx_div_v(a.b as int, s) as i64,
    }
}

/// The gamma transfer of one linear channel: its square root, zero for
/// non-positive input.
pub open spec fn linear_to_gamma_v(c: int) -> int {
    if c > 0 {
        fx_sqrt_v(c)
    } else {
        0
    }
}

/// One gamma channel quantized to eight bits: clamped to
/// `[0, FX_INTENSITY_MAX]` and scaled by 256.
pub open spec fn quantize_v(c: int) -> int {
    let clamped = if c < 0 {
        0
    } else if c > FX_INTENSITY_MAX {
        FX_INTENSITY_MAX as int
    } else {
        c
    };
    clamped / 256
}

impl Color {
    /// Pure black.
    pub fn black() -> (r: Self)
        ensures
            r == (Color { r: 0i64, g: 0i64, b: 0i64 }),
    {
        Color { r: 0, g: 0, b: 0 }
    }

    /// Pure white: every channel is one.
    pub fn white() -> (r: Self)
        ensures
            r == (Color { r: FX_ONE, g: FX_ONE, b: FX_ONE }),
    {
        Color { r: FX_ONE, g: FX_ONE, b: FX_ONE }
    }

    /// Half intensity in every channel.
    pub fn half_grey() -> (r: Self)
        ensures
            r == (Color { r: crate::fixed::FX_HALF, g: crate::fixed::FX_HALF, b: crate::fixed::FX_HALF }),
    {
        Color { r: crate::fixed::FX_HALF, g: crate::fixed::FX_HALF, b: crate::fixed::FX_HALF }
    }

    /// A random color with channels in `[0, 1)`.
    pub fn random() -> (r: Self)
        ensures
            0 <= r.r < FX_ONE,
            0 <= r.g < FX_ONE,
            0 <= r.b < FX_ONE,
    {
        Color { r: random_unit_fx(), g: random_unit_fx(), b: random_unit_fx() }
    }

    /// A random color with channels in `[min, max)`.
    pub fn random_range(min: i64, max: i64) -> (res: Self)
        requires
            0 <= min <= max <= crate::fixed::FX_HUGE,
        ensures
            min <= res.r <= max,
            min <= res.g <= max,
            min <= res.b <= max,
    {
        let span = max - min;
        let r = fx_add(min, fx_mul(span, random_unit_fx()));
        let g = fx_add(min, fx_mul(span, random_unit_fx()));
        let b = fx_add(min, fx_mul(span, random_unit_fx()));
        proof {
            lemma_scaled_unit_in_span(span as int);
        }
        Color { r, g, b }
    }

    /// The color with the given fixed-point channels.
    pub fn new(e0: i64, e1: i64, e2: i64) -> (r: Self)
        ensures
            r == (Color { r: e0, g: e1, b: e2 }),
    {
        Color { r: e0, g: e1, b: e2 }
    }

    /// The red channel.
    pub fn r(&self) -> (res: i64)
        ensures
            res == self.r,
    {
        self.r
    }

    /// The green channel.
    pub fn g(&self) -> (res: i64)
        ensures
            res == self.g,
    {
        self.g
    }

    /// The blue channel.
    pub fn b(&self) -> (res: i64)
        ensures
            res == self.b,
    {
        self.b
    }

    /// Componentwise sum.
    pub fn add(self, rhs: Self) -> (res: Self)
        ensures
            res == color_add_v(self, rhs),
    {
        Color { r: fx_add(self.r, rhs.r), g: fx_add(self.g, rhs.g), b: fx_add(self.b, rhs.b) }
    }

    /// Componentwise product: attenuation of carried light.
    pub fn mul(self, rhs: Self) -> (res: Self)
        ensures
            res == color_mul_v(self, rhs),
    {
        Color { r: fx_mul(self.r, rhs.r), g: fx_mul(self.g, rhs.g), b: fx_mul(self.b, rhs.b) }
    }

    /// The color scaled by a fixed-point factor.
    pub fn scale(self, s: i64) -> (res: Self)
        ensures
            res == color_scale_v(self, s as int),
    {
        Color { r: fx_mul(self.r, s), g: fx_mul(self.g, s), b: fx_mul(self.b, s) }
    }

    /// The color divided componentwise by a fixed-point factor.
    pub fn div_scalar(self, s: i64) -> (res: Self)
        ensures
            res == color_div_scalar_v(self, s as int),
    {
        Color { r: fx_div(self.r, s), g: fx_div(self.g, s), b: fx_div(self.b, s) }
    }

    /// The gamma-corrected, quantized eight-bit channels of the color.
    pub fn to_rgb8(&self) -> (res: (u8, u8, u8))
        ensures
            res.0 == quantize_v(linear_to_gamma_v(self.r as int)),
            res.1 == quantize_v(linear_to_gamma_v(self.g as int)),
            res.2 == quantize_v(linear_to_gamma_v(self.b as int)),
    {
        (quantize(linear_to_gamma(self.r)), quantize(linear_to_gamma(self.g)), quantize(
            linear_to_gamma(self.b),
        ))
    }
}

/// The gamma transfer of one linear channel.
pub fn linear_to_gamma(c: i64) -> (r: i64)
    ensures
        r == linear_to_gamma_v(c as int),
        r >= 0,
{
    if c > 0 {
        fx_sqrt(c)
    } else {
        0
    }
}

/// Quantize one non-negative gamma channel to eight bits.
fn quantize(c: i64) -> (r: u8)
    requires
        c >= 0,
    ensures
        r == quantize_v(c as int),
{
    let clamped = if c > FX_INTENSITY_MAX {
        FX_INTENSITY_MAX
    } else {
        c
    };
    ((clamped as u64) / 256) as u8
}

/// A color built from a vector's components.
pub fn color_from_vec(value: Vec3) -> (r: Color)
    ensures
        r == (Color { r: value.x, g: value.y, b: value.z }),
{
    Color { r: value.x, g: value.y, b: value.z }
}

proof fn lemma_scaled_unit_in_span(span: int)
    requires
        0 <= span <= crate::fixed::FX_HUGE,
    ensures
        forall|u: int| 0 <= u < FX_ONE ==> 0 <= #[trigger] fx_mul_v(span, u) <= span,
{
    assert forall|u: int| 0 <= u < FX_ONE implies 0 <= #[trigger] fx_mul_v(span, u) <= span by {
        crate::fixed::lemma_mul_unit_range(span, u);
    }
}

} // verus!
