//! The constant texture.

use vstd::prelude::*;
use crate::color::Color;

verus! {

#[derive(Clone, Copy, PartialEq, Eq, Structural, Debug)]
pub struct SolidColor {
    pub albedo: Color,
}

impl SolidColor {
    /// The texture that is everywhere the given color.
    pub fn new(albedo: Color) -> (r: Self)
        ensures
            r == (SolidColor { albedo }),
    {
        SolidColor { albedo }
    }

    /// The constant texture built from raw channels.
    pub fn from_colors(red: i64, green: i64, blue: i64) -> (r: Self)
        ensures
            r == (SolidColor { albedo: Color { r: red, g: green, b: blue } }),
    {
        SolidColor { albedo: Color { r: red, g: green, b: blue } }
    }
}

} // verus!
