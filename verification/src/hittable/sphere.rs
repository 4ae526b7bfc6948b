//! Spheres, fixed or moving linearly over the exposure.

use vstd::prelude::*;
use crate::fixed::{
    fx_add_v, fx_div_v, fx_mul_v, fx_neg_v, fx_sub_v, FX_ONE,
};
use crate::fmath::{fx_acos_v, fx_atan2_v, FX_PI, FX_TWO_PI};
use crate::interval::Interval;
use crate::material::Material;
use crate::ray::{ray_at_v, Ray};
use crate::vec3::{
    vec_add_v, vec_div_scalar_v, vec_dot_v, vec_scale_v, vec_sub_v, Point3, Vec3,
};
use super::aabb::Aabb;
use super::{face_normal_v, HitRecord};

verus! {

pub struct Sphere {
    pub center0: Point3,
    pub move_vec: Option<Vec3>,
    pub radius: i64,
    pub mat: Material,
    pub bbox: Aabb,
}

/// Where the sphere's center is at a given ray time.
pub open spec fn sphere_center_v(s: Sphere, time: int) -> Point3 {
    match s.move_vec {
        Some(mv) => vec_add_v(s.center0, vec_scale_v(mv, time)),
        None => s.center0,
    }
}

/// The surface coordinates of a point on the unit sphere: longitude from
/// `x = -1` around the y axis, latitude from the south pole up.
pub open spec fn sphere_uv_v(p: Point3) -> (int, int) {
    let theta = fx_acos_v(fx_neg_v(p.y as int));
    let phi = fx_add_v(fx_atan2_v(fx_neg_v(p.z as int), p.x as int), FX_PI as int);
    (fx_div_v(phi, FX_TWO_PI as int), fx_div_v(theta, FX_PI as int))
}

/// What the sphere intersection returns: solve the quadratic in the
/// half-angle form, take the nearer root strictly inside the interval, else
/// the farther, else nothing.
pub open spec fn sphere_hit_v(s: Sphere, r: Ray, itv: Interval) -> Option<HitRecord> {
    let center = sphere_center_v(s, r.time as int);
    let oc = vec_sub_v(center, r.orig);
    let a = vec_dot_v(r.dir, r.dir);
    let h = vec_dot_v(r.dir, oc);
    let c = fx_sub_v(vec_dot_v(oc, oc), fx_mul_v(s.radius as int, s.radius as int));
    let disc = fx_sub_v(fx_mul_v(h, h), fx_mul_v(a, c));
    if disc < 0 {
        None
    } else {
        let sqrtd = crate::fmath::fx_sqrt_v(disc);
        let root1 = fx_div_v(fx_sub_v(h, sqrtd), a);
        let root2 = fx_div_v(fx_add_v(h, sqrtd), a);
        let root = if itv.min < root1 && root1 < itv.max {
            root1
        } else if itv.min < root2 && root2 < itv.max {
            root2
        } else {
            itv.min as int - 1
        };
        if !(itv.min < root && root < itv.max) {
            None
        } else {
            Some(sphere_record_v(s, r, root, center))
        }
    }
}

/// The record a sphere hit at parameter `root` carries.
pub open spec fn sphere_record_v(s: Sphere, r: Ray, root: int, center: Point3) -> HitRecord {
    let p = ray_at_v(r, root);
    let outward_normal = vec_div_scalar_v(vec_sub_v(p, center), s.radius as int);
    let fnv = face_normal_v(r, outward_normal);
    let uv = sphere_uv_v(outward_normal);
    HitRecord {
        p,
        normal: fnv.1,
        mat: s.mat,
        t: root as i64,
        u: uv.0 as i64,
        v: uv.1 as i64,
        front_face: fnv.0,
    }
}

/// The whole value a stationary sphere constructor builds: still, with the
/// padded box spanning the center offset by the radius along every axis.
pub open spec fn sphere_v(center: Point3, radius: i64, mat: Material) -> Sphere {
    let r_vec = Vec3 { x: radius, y: radius, z: radius };
    Sphere {
        center0: center,
        move_vec: None,
        radius,
        mat,
        bbox: crate::hittable::aabb::from_points_v(
            vec_sub_v(center, r_vec),
            vec_add_v(center, r_vec),
        ),
    }
}

/// The whole value a moving sphere constructor builds: the box is the union
/// of the boxes around both endpoints of the motion.
pub open spec fn sphere_moving_v(center0: Point3, center1: Point3, radius: i64, mat: Material) -> Sphere {
    let r_vec = Vec3 { x: radius, y: radius, z: radius };
    Sphere {
        center0,
        move_vec: Some(vec_sub_v(center1, center0)),
        radius,
        mat,
        bbox: crate::hittable::aabb::box_union_v(
            crate::hittable::aabb::from_points_v(
                vec_sub_v(center0, r_vec),
                vec_add_v(center0, r_vec),
            ),
            crate::hittable::aabb::from_points_v(
                vec_sub_v(center1, r_vec),
                vec_add_v(center1, r_vec),
            ),
        ),
    }
}

impl Sphere {
    /// A stationary sphere: exactly `sphere_v`, its box included.
    pub fn new(center: Point3, radius: i64, mat: Material) -> (r: Self)
        ensures
            r == sphere_v(center, radius, mat),
    {
        let r_vec = Vec3::new(radius, radius, radius);
        let bbox = Aabb::from_points(center.sub(r_vec), center.add(r_vec));
        Sphere { center0: center, move_vec: None, radius, mat, bbox }
    }

    /// A sphere moving linearly from `center0` at time zero to `center1` at
    /// time one: exactly `sphere_moving_v`, its box included.
    pub fn new_moving(center0: Point3, center1: Point3, radius: i64, mat: Material) -> (r: Self)
        ensures
            r == sphere_moving_v(center0, center1, radius, mat),
    {
        let r_vec = Vec3::new(radius, radius, radius);
        let box0 = Aabb::from_points(center0.sub(r_vec), center0.add(r_vec));
        let box1 = Aabb::from_points(center1.sub(r_vec), center1.add(r_vec));
        let bbox = Aabb::from_boxes(&box0, &box1);
        Sphere { center0, move_vec: Some(center1.sub(center0)), radius, mat, bbox }
    }

    /// The center at a given ray time.
    pub fn sphere_center(&self, time: i64) -> (r: Point3)
        ensures
            r == sphere_center_v(*self, time as int),
    {
        match self.move_vec {
            Some(mv) => self.center0.add(mv.scale(time)),
            None => self.center0,
        }
    }

    /// The surface coordinates of a point on the unit sphere around the
    /// origin.
    pub fn get_sphere_uv(p: Point3) -> (res: (i64, i64))
        ensures
            (res.0 as int, res.1 as int) == sphere_uv_v(p),
    {
        let theta = crate::fmath::fx_acos(crate::fixed::fx_neg(p.y));
        let phi = crate::fixed::fx_add(crate::fmath::fx_atan2(crate::fixed::fx_neg(p.z), p.x), FX_PI);
        (crate::fixed::fx_div(phi, FX_TWO_PI), crate::fixed::fx_div(theta, FX_PI))
    }
}

} // verus!
