//! The phase function of a participating medium: scatter in a uniformly
//! random direction.

use vstd::prelude::*;
use crate::color::Color;
use crate::texture::solid_color::SolidColor;
use crate::texture::Texture;

verus! {

pub struct Isotropic {
    pub tex: Texture,
}

impl Isotropic {
    /// An isotropic scatterer of one solid color.
    pub fn new(albedo: Color) -> (r: Self)
        ensures
            r.tex == Texture::SolidColor(SolidColor { albedo }),
    {
        Isotropic { tex: Texture::SolidColor(SolidColor::new(albedo)) }
    }

    /// An isotropic scatterer over a texture.
    pub fn from_texture(tex: Texture) -> (r: Self)
        ensures
            r.tex == tex,
    {
        Isotropic { tex }
    }
}

} // verus!
