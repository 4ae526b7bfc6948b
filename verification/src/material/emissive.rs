//! The light-emitting material: it never scatters, it only radiates.

use vstd::prelude::*;
use crate::color::Color;
use crate::texture::solid_color::SolidColor;
use crate::texture::Texture;

verus! {

pub struct DiffuseLight {
    pub tex: Texture,
}

impl DiffuseLight {
    /// A light of one solid color.
    pub fn new(emit: Color) -> (r: Self)
        ensures
            r.tex == Texture::SolidColor(SolidColor { albedo: emit }),
    {
        DiffuseLight { tex: Texture::SolidColor(SolidColor::new(emit)) }
    }

    /// A light whose radiance follows a texture.
    pub fn from_texture(tex: Texture) -> (r: Self)
        ensures
            r.tex == tex,
    {
        DiffuseLight { tex }
    }
}

} // verus!
