//! Materials: the closed set of scattering behaviours.

pub mod dielectric;
pub mod emissive;
pub mod isotropic;
pub mod lambertian;
pub mod metal;

use vstd::prelude::*;
use crate::color::Color;
use crate::fixed::{fx_div, fx_min, fx_mul, FX_ONE};
use crate::hittable::HitRecord;
use crate::ray::Ray;
use crate::rng::random_unit_fx;
use crate::texture::{texture_value_v, texture_wf, Texture};
use crate::vec3::{
    vec_add_v, vec_bounded, vec_dot_v, vec_near_zero_v, vec_reflect_v, vec_scale_v, vec_unit_v,
    Point3, Vec3,
};
use dielectric::{cannot_refract_v, reflectance, refract, Dielectric};
use emissive::DiffuseLight;
use isotropic::Isotropic;
use lambertian::{lambertian_scatter_direction, Lambertian};
use metal::Metal;

verus! {

/// The closed set of material variants.
pub enum Material {
    Lambertian(Lambertian),
    Metal(Metal),
    Dielectric(Dielectric),
    DiffuseLight(DiffuseLight),
    Isotropic(Isotropic),
}

/// A usable material: its texture is usable.
pub open spec fn material_wf(m: Material) -> bool {
    match m {
        Material::Lambertian(l) => texture_wf(l.tex),
        Material::Metal(_) => true,
        Material::Dielectric(_) => true,
        Material::DiffuseLight(l) => texture_wf(l.tex),
        Material::Isotropic(i) => texture_wf(i.tex),
    }
}

/// What the emitted radiance of a material is: its texture for a light,
/// black for everything else.
pub open spec fn emitted_v(m: Material, u: int, v: int, p: Point3) -> Color {
    match m {
        Material::DiffuseLight(l) => texture_value_v(l.tex, u, v, p),
        _ => Color { r: 0, g: 0, b: 0 },
    }
}

/// The fuzz-perturbed mirror direction of the metal: the unit reflection of
/// the incoming direction plus the fuzz radius times a draw.
pub open spec fn metal_dir_v(r_in: Ray, normal: Vec3, fuzz: i64, draw: Vec3) -> Vec3 {
    vec_add_v(vec_unit_v(vec_reflect_v(r_in.dir, normal)), vec_scale_v(draw, fuzz as int))
}

/// What every scatter outcome satisfies, variant by variant. Where a random
/// draw shapes the outgoing direction, the direction is pinned as an exact
/// function of some admissible draw; the deterministic parts — attenuation,
/// scatter origin and time, the degenerate-direction guard, forced total
/// internal reflection, the reflect-or-refract dichotomy — are pinned
/// exactly.
pub open spec fn scatter_ens(m: Material, r_in: Ray, rec: HitRecord, res: Option<(Color, Ray)>) -> bool {
    match m {
        Material::Lambertian(l) => res matches Some(p) && p.0 == texture_value_v(
            l.tex,
            rec.u as int,
            rec.v as int,
            rec.p,
        ) && p.1.orig == rec.p && p.1.time == r_in.time && (p.1.dir == rec.normal
            || !vec_near_zero_v(p.1.dir)) && (exists|draw: Vec3|
            vec_bounded(draw) && p.1.dir == (if vec_near_zero_v(vec_add_v(rec.normal, draw)) {
                rec.normal
            } else {
                vec_add_v(rec.normal, draw)
            })),
        Material::Metal(mt) => {
            &&& (res matches Some(p) ==> p.0 == mt.albedo && p.1.orig == rec.p && p.1.time
                == r_in.time && vec_dot_v(p.1.dir, rec.normal) > 0 && exists|draw: Vec3|
                vec_bounded(draw) && p.1.dir == #[trigger] metal_dir_v(
                    r_in,
                    rec.normal,
                    mt.fuzz,
                    draw,
                ))
            &&& (res is None ==> exists|draw: Vec3|
                vec_bounded(draw) && vec_dot_v(
                    #[trigger] metal_dir_v(r_in, rec.normal, mt.fuzz, draw),
                    rec.normal,
                ) <= 0)
        },
        Material::Dielectric(d) => res matches Some(p) && p.0 == (Color {
            r: FX_ONE,
            g: FX_ONE,
            b: FX_ONE,
        }) && p.1.orig == rec.p && p.1.time == r_in.time && {
            let unit_dir = vec_unit_v(r_in.dir);
            let ri = dielectric::ri_effective_v(d.refraction_index as int, rec.front_face);
            &&& (p.1.dir == vec_reflect_v(unit_dir, rec.normal) || p.1.dir == dielectric::refract_v(
                unit_dir,
                rec.normal,
                ri,
            ))
            &&& (cannot_refract_v(unit_dir, rec.normal, ri) ==> p.1.dir == vec_reflect_v(
                unit_dir,
                rec.normal,
            ))
            &&& exists|draw: i64|
                0 <= draw < FX_ONE && p.1.dir == #[trigger] dielectric::dielectric_choice_v(
                    unit_dir,
                    rec.normal,
                    ri,
                    draw,
                )
        },
        Material::DiffuseLight(_) => res is None,
        Material::Isotropic(i) => res matches Some(p) && p.0 == texture_value_v(
            i.tex,
            rec.u as int,
            rec.v as int,
            rec.p,
        ) && p.1.orig == rec.p && p.1.time == r_in.time && (exists|q: Vec3|
            0 < crate::vec3::vec_len_sq_v(q) < FX_ONE && !vec_near_zero_v(q) && p.1.dir
                == #[trigger] vec_unit_v(q)),
    }
}

impl Material {
    /// Scatter an incoming ray at a hit: `None` when the ray is absorbed or
    /// the material only emits, otherwise the attenuation and the outgoing
    /// ray.
    pub fn scatter(&self, r_in: Ray, rec: &HitRecord) -> (res: Option<(Color, Ray)>)
        requires
            material_wf(*self),
        ensures
            scatter_ens(*self, r_in, *rec, res),
    {
        match self {
            Material::Lambertian(l) => {
                let draw = Vec3::random_unit_vector();
                let scatter_dir = lambertian_scatter_direction(rec.normal, draw);
                let scattered = Ray::with_time(rec.p, scatter_dir, r_in.time());
                let attenuation = l.tex.value(rec.u, rec.v, rec.p);
                proof {
                    assert(vec_bounded(draw) && scatter_dir == (if vec_near_zero_v(
                        vec_add_v(rec.normal, draw),
                    ) {
                        rec.normal
                    } else {
                        vec_add_v(rec.normal, draw)
                    }));
                }
                Some((attenuation, scattered))
            },
            Material::Metal(m) => {
                let reflected = r_in.direction().reflect(rec.normal);
                let draw = Vec3::random_unit_vector();
                let fuzzed = reflected.unit_vector().add(draw.scale(m.fuzz));
                let scattered = Ray::with_time(rec.p, fuzzed, r_in.time());
                proof {
                    assert(fuzzed == metal_dir_v(r_in, rec.normal, m.fuzz, draw));
                }
                if scattered.direction().dot(rec.normal) > 0 {
                    Some((m.albedo, scattered))
                } else {
                    None
                }
            },
            Material::Dielectric(d) => {
                let attenuation = Color::white();
                let ri = if rec.front_face {
                    fx_div(FX_ONE, d.refraction_index)
                } else {
                    d.refraction_index
                };
                let unit_dir = r_in.direction().unit_vector();
                let cos_theta = fx_min(unit_dir.neg().dot(rec.normal), FX_ONE);
                let sin_theta = crate::fmath::fx_sqrt(
                    crate::fixed::fx_sub(FX_ONE, fx_mul(cos_theta, cos_theta)),
                );
                let cannot_refract = fx_mul(ri, sin_theta) > FX_ONE;
                let draw = random_unit_fx();
                let direction = if cannot_refract || reflectance(cos_theta, ri) > draw {
                    unit_dir.reflect(rec.normal)
                } else {
                    refract(unit_dir, rec.normal, ri)
                };
                proof {
                    assert(direction == dielectric::dielectric_choice_v(
                        vec_unit_v(r_in.dir),
                        rec.normal,
                        dielectric::ri_effective_v(d.refraction_index as int, rec.front_face),
                        draw,
                    ));
                }
                Some((attenuation, Ray::with_time(rec.p, direction, r_in.time())))
            },
            Material::DiffuseLight(_) => None,
            Material::Isotropic(i) => {
                let dir = Vec3::random_unit_vector();
                let scattered = Ray::with_time(rec.p, dir, r_in.time());
                let attenuation = i.tex.value(rec.u, rec.v, rec.p);
                Some((attenuation, scattered))
            },
        }
    }

    /// The emitted radiance at surface coordinates and position: the texture
    /// of a light, black for every other material.
    pub fn emitted(&self, u: i64, v: i64, p: Point3) -> (res: Color)
        requires
            material_wf(*self),
        ensures
            res == emitted_v(*self, u as int, v as int, p),
    {
        match self {
            Material::DiffuseLight(l) => l.tex.value(u, v, p),
            _ => Color::black(),
        }
    }
}

/// The energy bound of the refractive material: every scatter outcome, on
/// either the reflect or the refract branch, carries the white attenuation,
/// each channel within the unit interval — a dielectric never amplifies
/// light.
pub proof fn lemma_dielectric_attenuation_bounded(
    d: Dielectric,
    r_in: Ray,
    rec: HitRecord,
    res: Option<(Color, Ray)>,
)
    requires
        scatter_ens(Material::Dielectric(d), r_in, rec, res),
    ensures
        res matches Some(p) ==> 0 <= p.0.r <= FX_ONE && 0 <= p.0.g <= FX_ONE && 0 <= p.0.b
            <= FX_ONE,
        res is Some,
{
}

impl Material {
    /// Whether the material is usable, decided at run time.
    pub fn is_well_formed(&self) -> (r: bool)
        ensures
            r == material_wf(*self),
    {
        match self {
            Material::Lambertian(l) => l.tex.is_well_formed(),
            Material::Metal(_) => true,
            Material::Dielectric(_) => true,
            Material::DiffuseLight(l) => l.tex.is_well_formed(),
            Material::Isotropic(i) => i.tex.is_well_formed(),
        }
    }
}

impl Clone for Material {
    /// A clone carries exactly the same value.
    fn clone(&self) -> (r: Self)
        ensures
            r == *self,
    {
        match self {
            Material::Lambertian(l) => Material::Lambertian(Lambertian { tex: l.tex.clone() }),
            Material::Metal(m) => Material::Metal(Metal { albedo: m.albedo, fuzz: m.fuzz }),
            Material::Dielectric(d) => Material::Dielectric(
                Dielectric { refraction_index: d.refraction_index },
            ),
            Material::DiffuseLight(l) => Material::DiffuseLight(
                DiffuseLight { tex: l.tex.clone() },
            ),
            Material::Isotropic(i) => Material::Isotropic(Isotropic { tex: i.tex.clone() }),
        }
    }
}

} // verus!
