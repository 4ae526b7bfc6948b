//! Textures: colors as functions of surface coordinates and position.

pub mod checker;
pub mod image;
pub mod noise;
pub mod perlin;
pub mod solid_color;

use vstd::prelude::*;
use crate::color::{color_scale_v, Color};
use crate::fixed::{
    fx_add, fx_add_v, fx_mul, fx_mul_v, fx_sub_v, sat, FX_HALF, FX_ONE,
};
use crate::fmath::{fx_floor_int, fx_mod, fx_sin, fx_sin_v};
use crate::vec3::{vec_scale_v, Point3};
use checker::Checker;
use image::{image_wf, Image};
use noise::{MarbleNoise, Noise, TurbNoise};
use perlin::{perlin_noise_v, perlin_turb_v, perlin_wf};
use solid_color::SolidColor;

verus! {

/// The closed set of texture variants.
#[derive(Debug)]
pub enum Texture {
    SolidColor(SolidColor),
    Checker(Checker),
    Image(Image),
    Noise(Noise),
    TurbNoise(TurbNoise),
    Marble(MarbleNoise),
}

/// A usable texture: every raster has the right length, every noise table is
/// full, recursively through checkerboards.
pub open spec fn texture_wf(t: Texture) -> bool
    decreases t,
{
    match t {
        Texture::SolidColor(_) => true,
        Texture::Checker(c) => texture_wf(*c.even) && texture_wf(*c.odd),
        Texture::Image(img) => image_wf(img),
        Texture::Noise(n) => perlin_wf(*n.noise),
        Texture::TurbNoise(n) => perlin_wf(*n.noise),
        Texture::Marble(n) => perlin_wf(*n.noise),
    }
}

/// A coordinate clamped into the unit interval.
pub open spec fn clamp01_v(x: int) -> int {
    if x < 0 {
        0
    } else if x > FX_ONE {
        FX_ONE as int
    } else {
        x
    }
}

/// The raster column or row index of a texture coordinate: the coordinate
/// scaled by the extent, floored, and capped at the last sample.
pub open spec fn image_index_v(coord: int, extent: int) -> int {
    let scaled = fx_mul_v(coord, sat(extent * (FX_ONE as int)));
    let idx = scaled / (FX_ONE as int);
    if idx >= extent {
        extent - 1
    } else {
        idx
    }
}

/// One raster byte lifted to a linear channel: scaled into the unit interval
/// and squared to undo the gamma transfer.
pub open spec fn channel_of_byte_v(byte: int) -> int {
    let c = (byte * (FX_ONE as int)) / 255;
    fx_mul_v(c, c)
}

/// The color an image texture yields at `(u, v)`: cyan for an empty raster,
/// else the gamma-decoded sample at the clamped, vertically flipped
/// coordinates.
pub open spec fn image_value_v(img: Image, u: int, v: int) -> Color
    recommends
        image_wf(img),
{
    if img.width == 0 || img.height == 0 {
        Color { r: 0, g: FX_ONE, b: FX_ONE }
    } else {
        let iu = clamp01_v(u);
        let iv = fx_sub_v(FX_ONE as int, clamp01_v(v));
        let i = image_index_v(iu, img.width as int);
        let j = image_index_v(iv, img.height as int);
        let base = 3 * (j * (img.width as int) + i);
        Color {
            r: channel_of_byte_v(img.pixels@[base] as int) as i64,
            g: channel_of_byte_v(img.pixels@[base + 1] as int) as i64,
            b: channel_of_byte_v(img.pixels@[base + 2] as int) as i64,
        }
    }
}

/// The color a texture yields at surface coordinates `(u, v)` and position
/// `p`.
pub open spec fn texture_value_v(t: Texture, u: int, v: int, p: Point3) -> Color
    recommends
        texture_wf(t),
    decreases t,
{
    match t {
        Texture::SolidColor(c) => c.albedo,
        Texture::Checker(c) => {
            let xi = fx_mul_v(c.inv_scale as int, p.x as int) / (FX_ONE as int);
            let yi = fx_mul_v(c.inv_scale as int, p.y as int) / (FX_ONE as int);
            let zi = fx_mul_v(c.inv_scale as int, p.z as int) / (FX_ONE as int);
            if (xi + yi + zi) % 2 == 0 {
                texture_value_v(*c.even, u, v, p)
            } else {
                texture_value_v(*c.odd, u, v, p)
            }
        },
        Texture::Image(img) => image_value_v(img, u, v),
        Texture::Noise(n) => color_scale_v(
            color_scale_v(Color { r: FX_ONE, g: FX_ONE, b: FX_ONE }, FX_HALF as int),
            fx_add_v(
                FX_ONE as int,
                perlin_noise_v(*n.noise, vec_scale_v(p, n.scale as int)),
            ),
        ),
        Texture::TurbNoise(n) => color_scale_v(
            Color { r: FX_ONE, g: FX_ONE, b: FX_ONE },
            perlin_turb_v(*n.noise, vec_scale_v(p, n.scale as int), n.depth as int),
        ),
        Texture::Marble(n) => color_scale_v(
            Color { r: FX_HALF, g: FX_HALF, b: FX_HALF },
            fx_add_v(
                FX_ONE as int,
                fx_sin_v(
                    fx_add_v(
                        fx_mul_v(n.scale as int, p.z as int),
                        fx_mul_v(10 * (FX_ONE as int), perlin_turb_v(*n.noise, p, n.depth as int)),
                    ),
                ),
            ),
        ),
    }
}

impl Texture {
    /// The color of the texture at surface coordinates `(u, v)` and position
    /// `p`.
    pub fn value(&self, u: i64, v: i64, p: Point3) -> (res: Color)
        requires
            texture_wf(*self),
        ensures
            res == texture_value_v(*self, u as int, v as int, p),
        decreases *self,
    {
        match self {
            Texture::SolidColor(c) => c.albedo,
            Texture::Checker(c) => {
                let xi = fx_floor_int(fx_mul(c.inv_scale, p.x));
                let yi = fx_floor_int(fx_mul(c.inv_scale, p.y));
                let zi = fx_floor_int(fx_mul(c.inv_scale, p.z));
                let is_even = fx_mod(xi + yi + zi, 2) == 0;
                proof {
                    assert(decreases_to!(*self => self->Checker_0));
                    assert(decreases_to!(self->Checker_0 => self->Checker_0.even));
                    assert(decreases_to!(self->Checker_0 => self->Checker_0.odd));
                }
                if is_even {
                    c.even.value(u, v, p)
                } else {
                    c.odd.value(u, v, p)
                }
            },
            Texture::Image(img) => {
                if img.width == 0 || img.height == 0 {
                    return Color { r: 0, g: FX_ONE, b: FX_ONE };
                }
                let iu = clamp01(u);
                let iv = FX_ONE - clamp01(v);
                let i = image_index(iu, img.width);
                let j = image_index(iv, img.height);
                proof {
                    assert((j as int) * (img.width as int) < 0x1_0000_0000 && (j as int) * (
                    img.width as int) >= 0) by (nonlinear_arith)
                        requires
                            0 <= (j as int) && (j as int) < 0x10000,
                            0 <= (img.width as int) && (img.width as int) < 0x10000,
                    ;
                    assert(3 * ((j as int) * (img.width as int) + i) + 2 < img.pixels@.len())
                        by (nonlinear_arith)
                        requires
                            img.pixels@.len() == 3 * (img.width as int) * (img.height as int),
                            0 <= i < img.width as int,
                            0 <= j < img.height as int,
                    ;
                }
                let pix: &Vec<u8> = &img.pixels;
                let n = pix.len();
                let base64 = 3u64 * ((j as u64) * (img.width as u64) + (i as u64));
                proof {
                    assert(base64 + 2 < n);
                }
                let base = base64 as usize;
                let pr = channel_of_byte(pix[base]);
                let pg = channel_of_byte(pix[base + 1]);
                let pb = channel_of_byte(pix[base + 2]);
                Color { r: pr, g: pg, b: pb }
            },
            Texture::Noise(n) => {
                let nv = n.noise.noise(p.scale(n.scale));
                Color::white().scale(FX_HALF).scale(fx_add(FX_ONE, nv))
            },
            Texture::TurbNoise(n) => {
                let tv = n.noise.turb(p.scale(n.scale), n.depth);
                Color::white().scale(tv)
            },
            Texture::Marble(n) => {
                let tv = n.noise.turb(p, n.depth);
                let phase = fx_add(fx_mul(n.scale, p.z), fx_mul(10 * FX_ONE, tv));
                Color::half_grey().scale(fx_add(FX_ONE, fx_sin(phase)))
            },
        }
    }
}

impl Texture {
    /// Whether the texture is usable, decided at run time.
    pub fn is_well_formed(&self) -> (r: bool)
        ensures
            r == texture_wf(*self),
        decreases *self,
    {
        match self {
            Texture::SolidColor(_) => true,
            Texture::Checker(c) => {
                proof {
                    assert(decreases_to!(*self => self->Checker_0));
                    assert(decreases_to!(self->Checker_0 => self->Checker_0.even));
                    assert(decreases_to!(self->Checker_0 => self->Checker_0.odd));
                }
                c.even.is_well_formed() && c.odd.is_well_formed()
            },
            Texture::Image(img) => {
                if img.width >= 0x10000 || img.height >= 0x10000 {
                    return false;
                }
                proof {
                    assert((3 * (img.width as int)) * (img.height as int) < 0x1_0000_0000_0000)
                        by (nonlinear_arith)
                        requires
                            0 <= (img.width as int) && (img.width as int) < 0x10000,
                            0 <= (img.height as int) && (img.height as int) < 0x10000,
                    ;
                    assert(3 * (img.width as int) * (img.height as int) == (3 * (img.width as int))
                        * (img.height as int)) by (nonlinear_arith);
                }
                let expected = 3u64 * (img.width as u64) * (img.height as u64);
                let pix: &Vec<u8> = &img.pixels;
                pix.len() as u64 == expected
            },
            Texture::Noise(n) => n.noise.is_well_formed(),
            Texture::TurbNoise(n) => n.noise.is_well_formed(),
            Texture::Marble(n) => n.noise.is_well_formed(),
        }
    }
}

impl Clone for Texture {
    /// A clone carries exactly the same value: rasters and noise tables are
    /// shared handles, checkerboard children are cloned recursively.
    fn clone(&self) -> (r: Self)
        ensures
            r == *self,
        decreases *self,
    {
        match self {
            Texture::SolidColor(c) => Texture::SolidColor(SolidColor { albedo: c.albedo }),
            Texture::Checker(c) => {
                proof {
                    assert(decreases_to!(*self => self->Checker_0));
                    assert(decreases_to!(self->Checker_0 => self->Checker_0.even));
                    assert(decreases_to!(self->Checker_0 => self->Checker_0.odd));
                }
                Texture::Checker(
                    Checker {
                        even: Box::new((&*c.even).clone()),
                        odd: Box::new((&*c.odd).clone()),
                        inv_scale: c.inv_scale,
                    },
                )
            },
            Texture::Image(img) => Texture::Image(
                Image { width: img.width, height: img.height, pixels: img.pixels.clone() },
            ),
            Texture::Noise(n) => Texture::Noise(Noise { noise: n.noise.clone(), scale: n.scale }),
            Texture::TurbNoise(n) => Texture::TurbNoise(
                TurbNoise { noise: n.noise.clone(), scale: n.scale, depth: n.depth },
            ),
            Texture::Marble(n) => Texture::Marble(
                MarbleNoise { noise: n.noise.clone(), scale: n.scale, depth: n.depth },
            ),
        }
    }
}

/// A texture coordinate clamped into the unit interval.
fn clamp01(x: i64) -> (r: i64)
    ensures
        r == clamp01_v(x as int),
        0 <= r <= FX_ONE,
{
    if x < 0 {
        0
    } else if x > FX_ONE {
        FX_ONE
    } else {
        x
    }
}

/// The raster index of a clamped coordinate.
fn image_index(coord: i64, extent: u32) -> (r: u32)
    requires
        0 <= coord <= FX_ONE,
        0 < extent < 0x10000,
    ensures
        r == image_index_v(coord as int, extent as int),
        r < extent,
{
    let scaled = fx_mul(coord, crate::fixed::fx_from_int(extent as i64));
    proof {
        crate::fixed::lemma_mul_unit_range((extent as int) * (FX_ONE as int), coord as int);
        assert((extent as int) * (FX_ONE as int) <= 0x10000 * 65536) by (nonlinear_arith)
            requires
                0 < extent as int <= 0x10000,
        ;
        assert(fx_mul_v(coord as int, (extent as int) * (FX_ONE as int)) == fx_mul_v(
            (extent as int) * (FX_ONE as int),
            coord as int,
        )) by {
            assert(coord as int * ((extent as int) * (FX_ONE as int)) == ((extent as int) * (
            FX_ONE as int)) * (coord as int)) by (nonlinear_arith);
        }
        vstd::arithmetic::div_mod::lemma_div_is_ordered(
            0,
            fx_mul_v(coord as int, (extent as int) * (FX_ONE as int)),
            FX_ONE as int,
        );
        vstd::arithmetic::div_mod::lemma_div_is_ordered(
            fx_mul_v(coord as int, (extent as int) * (FX_ONE as int)),
            (extent as int) * (FX_ONE as int),
            FX_ONE as int,
        );
        vstd::arithmetic::div_mod::lemma_div_multiples_vanish(extent as int, FX_ONE as int);
        assert((extent as int) * (FX_ONE as int) == (FX_ONE as int) * (extent as int))
            by (nonlinear_arith);
    }
    let idx = ((scaled as u64) / 65536) as u32;
    if idx >= extent {
        extent - 1
    } else {
        idx
    }
}

/// One raster byte lifted to a linear channel.
fn channel_of_byte(byte: u8) -> (r: i64)
    ensures
        r == channel_of_byte_v(byte as int),
{
    let c = (((byte as u64) * 65536) / 255) as i64;
    fx_mul(c, c)
}

} // verus!
