//! A participating medium bounded by a convex primitive: rays scatter at an
//! exponentially sampled free-flight distance inside the boundary.

use vstd::prelude::*;
use crate::color::Color;
use crate::fixed::{
    fx_add, fx_add_v, fx_div, fx_div_v, fx_mul, fx_mul_v, fx_sub, fx_sub_v, FX_ONE,
};
use crate::fmath::{fx_neg_log2, neg_log2_v, FX_LN2};
use crate::interval::Interval;
use crate::material::isotropic::Isotropic;
use crate::material::{material_wf, Material};
use crate::texture::{texture_wf, Texture};
use super::{hittable_wf, Hittable};

verus! {

/// The free-flight distance the medium draws: the mean free path times the
/// natural logarithm of the reciprocal draw, through the dyadic base-two
/// logarithm and a fixed-point ln 2.
pub open spec fn flight_distance_v(inv_density: int, draw: int) -> int {
    fx_mul_v(inv_density, fx_mul_v(neg_log2_v(draw), FX_LN2 as int))
}

/// Where within the query interval the medium scatters, given the two
/// boundary crossing parameters, the ray length and the sampled flight
/// distance: the crossings are clipped to the interval and the entry to
/// zero; an empty segment, a degenerate ray, or a flight longer than the
/// segment scatters nothing.
pub open spec fn medium_sample_v(t1: int, t2: int, ray_length: int, hd: int, ray_t: Interval) -> Option<i64> {
    let c1 = if t1 < ray_t.min {
        ray_t.min as int
    } else {
        t1
    };
    let c2 = if t2 > ray_t.max {
        ray_t.max as int
    } else {
        t2
    };
    if c1 >= c2 {
        None
    } else {
        let c1b = if c1 < 0 {
            0
        } else {
            c1
        };
        if c1b > c2 {
            None
        } else if ray_length <= 0 {
            None
        } else {
            let seg = fx_sub_v(c2, c1b);
            let dist = fx_mul_v(seg, ray_length);
            if hd < 0 || hd > dist {
                None
            } else {
                Some(fx_add_v(c1b, fx_div_v(hd, ray_length)) as i64)
            }
        }
    }
}

/// Sample the medium's scattering parameter from the two boundary crossing
/// parameters and a positive unit draw: exactly `medium_sample_v` at the
/// drawn flight distance, and any returned parameter lies within the query
/// interval.
pub fn medium_sample(t1: i64, t2: i64, ray_length: i64, inv_density: i64, draw: i64, ray_t: Interval) -> (res: Option<i64>)
    requires
        0 < draw <= FX_ONE,
        inv_density >= 0,
        t2 <= crate::fixed::FX_HUGE,
    ensures
        res == medium_sample_v(
            t1 as int,
            t2 as int,
            ray_length as int,
            flight_distance_v(inv_density as int, draw as int),
            ray_t,
        ),
        res matches Some(t) ==> ray_t.min <= t <= ray_t.max,
{
    let mut c1 = t1;
    let mut c2 = t2;
    if c1 < ray_t.min {
        c1 = ray_t.min;
    }
    if c2 > ray_t.max {
        c2 = ray_t.max;
    }
    if c1 >= c2 {
        return None;
    }
    if c1 < 0 {
        c1 = 0;
    }
    if c1 > c2 {
        return None;
    }
    if ray_length <= 0 {
        return None;
    }
    let seg = fx_sub(c2, c1);
    let hit_distance = fx_mul(inv_density, fx_mul(fx_neg_log2(draw), FX_LN2));
    let distance_inside = fx_mul(seg, ray_length);
    if hit_distance < 0 || hit_distance > distance_inside {
        return None;
    }
    proof {
        super::lemma_scaled_distance(hit_distance as int, seg as int, ray_length as int);
    }
    Some(fx_add(c1, fx_div(hit_distance, ray_length)))
}

pub struct ConstantMedium {
    /// The boundary, which the sampling assumes to be convex.
    pub boundary: Box<Hittable>,
    /// The reciprocal of the density: the mean free-flight distance.
    pub inv_density: i64,
    /// The isotropic phase function applied at a scattering event.
    pub phase_function: Material,
}

impl ConstantMedium {
    /// A medium of the given density filling the boundary, scattering into a
    /// solid color.
    pub fn new(boundary: Hittable, density: i64, albedo: Color) -> (r: Self)
        requires
            hittable_wf(boundary),
        ensures
            *r.boundary == boundary,
            r.inv_density == fx_div_v(FX_ONE as int, density as int),
            r.phase_function == Material::Isotropic(
                Isotropic {
                    tex: crate::texture::Texture::SolidColor(
                        crate::texture::solid_color::SolidColor { albedo },
                    ),
                },
            ),
            material_wf(r.phase_function),
            hittable_wf(*r.boundary),
    {
        ConstantMedium {
            boundary: Box::new(boundary),
            inv_density: fx_div(FX_ONE, density),
            phase_function: Material::Isotropic(Isotropic::new(albedo)),
        }
    }

    /// A medium of the given density scattering into a texture.
    pub fn with_texture(boundary: Hittable, density: i64, tex: Texture) -> (r: Self)
        requires
            hittable_wf(boundary),
            texture_wf(tex),
        ensures
            *r.boundary == boundary,
            r.inv_density == fx_div_v(FX_ONE as int, density as int),
            r.phase_function == Material::Isotropic(Isotropic { tex }),
            material_wf(r.phase_function),
            hittable_wf(*r.boundary),
    {
        ConstantMedium {
            boundary: Box::new(boundary),
            inv_density: fx_div(FX_ONE, density),
            phase_function: Material::Isotropic(Isotropic::from_texture(tex)),
        }
    }
}

} // verus!
