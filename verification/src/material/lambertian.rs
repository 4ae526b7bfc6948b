//! The diffuse material.

use vstd::prelude::*;
use crate::color::Color;
use crate::texture::solid_color::SolidColor;
use crate::texture::Texture;
use crate::vec3::{vec_add_v, vec_near_zero_v, Vec3};

verus! {

pub struct Lambertian {
    pub tex: Texture,
}

impl Lambertian {
    /// A diffuse material of one solid color.
    pub fn new(albedo: Color) -> (r: Self)
        ensures
            r.tex == Texture::SolidColor(SolidColor { albedo }),
    {
        Lambertian { tex: Texture::SolidColor(SolidColor::new(albedo)) }
    }

    /// A diffuse material over a texture.
    pub fn from_texture(tex: Texture) -> (r: Self)
        ensures
            r.tex == tex,
    {
        Lambertian { tex }
    }
}

/// The diffuse bounce direction: the surface normal plus a unit draw, except
/// that a draw that nearly cancels the normal falls back to the normal
/// itself, so the scattered ray never degenerates to zero.
pub fn lambertian_scatter_direction(normal: Vec3, unit_draw: Vec3) -> (r: Vec3)
    ensures
        vec_near_zero_v(vec_add_v(normal, unit_draw)) ==> r == normal,
        !vec_near_zero_v(vec_add_v(normal, unit_draw)) ==> r == vec_add_v(normal, unit_draw),
        r == normal || !vec_near_zero_v(r),
{
    let d = normal.add(unit_draw);
    if d.near_zero() {
        normal
    } else {
        d
    }
}

} // verus!
