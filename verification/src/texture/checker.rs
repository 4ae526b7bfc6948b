//! The checkerboard texture: two textures alternating over space.

use vstd::prelude::*;
use crate::color::Color;
use crate::fixed::{fx_div, fx_div_v, FX_ONE};
use super::solid_color::SolidColor;
use super::Texture;

verus! {

#[derive(Debug)]
pub struct Checker {
    pub even: Box<Texture>,
    pub odd: Box<Texture>,
    pub inv_scale: i64,
}

impl Checker {
    /// A checkerboard alternating between two textures, with cells of the
    /// given spatial scale.
    pub fn from_textures(scale: i64, even: Texture, odd: Texture) -> (r: Self)
        ensures
            r.inv_scale == fx_div_v(FX_ONE as int, scale as int),
            *r.even == even,
            *r.odd == odd,
    {
        Checker { inv_scale: fx_div(FX_ONE, scale), even: Box::new(even), odd: Box::new(odd) }
    }

    /// A checkerboard alternating between two solid colors.
    pub fn from_colors(scale: i64, c1: Color, c2: Color) -> (r: Self)
        ensures
            r.inv_scale == fx_div_v(FX_ONE as int, scale as int),
            *r.even == Texture::SolidColor(SolidColor { albedo: c1 }),
            *r.odd == Texture::SolidColor(SolidColor { albedo: c2 }),
    {
        Checker {
            inv_scale: fx_div(FX_ONE, scale),
            even: Box::new(Texture::SolidColor(SolidColor::new(c1))),
            odd: Box::new(Texture::SolidColor(SolidColor::new(c2))),
        }
    }
}

} // verus!
