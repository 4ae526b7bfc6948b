//! The refractive material, with Snell refraction and the Schlick
//! reflectance approximation.

use vstd::prelude::*;
use crate::fixed::{
    fx_add, fx_add_v, fx_div, fx_div_v, fx_min, fx_mul, fx_mul_v, fx_neg, fx_neg_v, fx_sub,
    fx_sub_v, FX_ONE,
};
use crate::fmath::{fx_sqrt, fx_sqrt_v};
use crate::vec3::{vec_add_v, vec_dot_v, vec_len_sq_v, vec_neg_v, vec_scale_v, Vec3};

verus! {

/// Refractive index of air.
pub const RI_AIR: i64 = 65536;

/// Refractive index of common glass.
pub const RI_GLASS: i64 = 98304;

/// Refractive index of water.
pub const RI_WATER: i64 = 87359;

/// Refractive index of diamond.
pub const RI_DIAMOND: i64 = 158400;

pub struct Dielectric {
    /// Refractive index in vacuum or air, or the ratio of the material's
    /// index over the index of the enclosing medium.
    pub refraction_index: i64,
}

impl Dielectric {
    /// A clear refractive material with the given index.
    pub fn new(refraction_index: i64) -> (r: Self)
        ensures
            r.refraction_index == refraction_index,
    {
        Dielectric { refraction_index }
    }
}

/// The refracted direction of a unit incoming direction `uv` against unit
/// normal `n`, for the given ratio of refractive indices.
pub open spec fn refract_v(uv: Vec3, n: Vec3, etai_over_etat: int) -> Vec3 {
    let d = vec_dot_v(uv, n);
    let cos_theta = fx_neg_v(
        if d <= FX_ONE {
            d
        } else {
            FX_ONE as int
        },
    );
    let r_out_perp = vec_scale_v(vec_add_v(uv, vec_scale_v(n, cos_theta)), etai_over_etat);
    let s = fx_sqrt_v(
        crate::fixed::sat(
            crate::fixed::iabs(fx_sub_v(FX_ONE as int, vec_len_sq_v(r_out_perp))),
        ),
    );
    vec_add_v(r_out_perp, vec_scale_v(n, fx_neg_v(s)))
}

/// Refract a unit direction about a unit normal.
pub fn refract(uv: Vec3, n: Vec3, etai_over_etat: i64) -> (r: Vec3)
    ensures
        r == refract_v(uv, n, etai_over_etat as int),
{
    let cos_theta = fx_neg(fx_min(uv.dot(n), FX_ONE));
    let r_out_perp = uv.add(n.scale(cos_theta)).scale(etai_over_etat);
    let s = fx_sqrt(crate::fixed::fx_abs(fx_sub(FX_ONE, r_out_perp.length_squared())));
    r_out_perp.add(n.scale(fx_neg(s)))
}

/// Schlick's polynomial approximation of the Fresnel reflectance.
pub open spec fn reflectance_v(cosine: int, refraction_index: int) -> int {
    let r0 = fx_div_v(
        fx_sub_v(FX_ONE as int, refraction_index),
        fx_add_v(FX_ONE as int, refraction_index),
    );
    let r0s = fx_mul_v(r0, r0);
    let omc = fx_sub_v(FX_ONE as int, cosine);
    let omc2 = fx_mul_v(omc, omc);
    let omc4 = fx_mul_v(omc2, omc2);
    let omc5 = fx_mul_v(omc4, omc);
    fx_add_v(r0s, fx_mul_v(fx_sub_v(FX_ONE as int, r0s), omc5))
}

/// The Schlick reflectance for a given incidence cosine and index.
pub fn reflectance(cosine: i64, refraction_index: i64) -> (r: i64)
    ensures
        r == reflectance_v(cosine as int, refraction_index as int),
{
    let r0 = fx_div(fx_sub(FX_ONE, refraction_index), fx_add(FX_ONE, refraction_index));
    let r0s = fx_mul(r0, r0);
    let omc = fx_sub(FX_ONE, cosine);
    let omc2 = fx_mul(omc, omc);
    let omc4 = fx_mul(omc2, omc2);
    let omc5 = fx_mul(omc4, omc);
    fx_add(r0s, fx_mul(fx_sub(FX_ONE, r0s), omc5))
}

/// The effective index ratio at a hit: inverted when the outside was struck.
pub open spec fn ri_effective_v(refraction_index: int, front_face: bool) -> int {
    if front_face {
        fx_div_v(FX_ONE as int, refraction_index)
    } else {
        refraction_index
    }
}

/// The incidence cosine the dielectric decision uses: the dot of the
/// reversed unit direction with the normal, capped at one.
pub open spec fn dielectric_cos_v(unit_dir: Vec3, normal: Vec3) -> int {
    let d = vec_dot_v(vec_neg_v(unit_dir), normal);
    if d <= FX_ONE {
        d
    } else {
        FX_ONE as int
    }
}

/// Whether refraction is geometrically impossible: the sine scaled by the
/// index ratio exceeds one, forcing total internal reflection.
pub open spec fn cannot_refract_v(unit_dir: Vec3, normal: Vec3, ri: int) -> bool {
    let cos = dielectric_cos_v(unit_dir, normal);
    let sin = fx_sqrt_v(fx_sub_v(FX_ONE as int, fx_mul_v(cos, cos)));
    fx_mul_v(ri, sin) > FX_ONE as int
}

/// The direction the dielectric picks for a given unit draw: the exact
/// reflection when refraction is impossible or the Schlick reflectance
/// exceeds the draw, else the exact refraction.
pub open spec fn dielectric_choice_v(unit_dir: Vec3, normal: Vec3, ri: int, draw: i64) -> Vec3 {
    if cannot_refract_v(unit_dir, normal, ri) || reflectance_v(
        dielectric_cos_v(unit_dir, normal),
        ri,
    ) > draw {
        crate::vec3::vec_reflect_v(unit_dir, normal)
    } else {
        refract_v(unit_dir, normal, ri)
    }
}

} // verus!
