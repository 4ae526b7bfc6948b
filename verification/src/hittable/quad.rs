//! Quads: parallelograms given by a corner and two edge vectors.

use vstd::prelude::*;
use crate::fixed::{fx_div_v, fx_sub_v, iabs, FX_ONE};
use crate::interval::Interval;
use crate::material::Material;
use crate::ray::{ray_at_v, Ray};
use crate::vec3::{
    vec_cross_v, vec_div_scalar_v, vec_dot_v, vec_sub_v, Point3, Vec3, FX_NEAR_ZERO,
};
use super::aabb::{box_union_v, Aabb};
use super::hittable_list::HittableList;
use super::{face_normal_v, Hittable, HitRecord};
use crate::material::material_wf;

verus! {

pub struct Quad {
    /// One vertex of the quad.
    pub q: Point3,
    /// Edge vector from `q` to the first adjacent vertex.
    pub u: Vec3,
    /// Edge vector from `q` to the second adjacent vertex.
    pub v: Vec3,
    /// The constant `n / (n . n)` used in intersection testing.
    pub w: Vec3,
    pub bbox: Aabb,
    pub mat: Material,
    /// The unit normal of the plane containing the quad.
    pub normal: Vec3,
    /// The plane offset: `normal . q`.
    pub d: i64,
}

/// The planar coordinates of an intersection point within the quad, if both
/// lie in the unit interval.
pub open spec fn quad_uv_v(qd: Quad, intersection: Vec3) -> Option<(int, int)> {
    let planar = vec_sub_v(intersection, qd.q);
    let alpha = vec_dot_v(qd.w, vec_cross_v(planar, qd.v));
    let beta = vec_dot_v(qd.w, vec_cross_v(qd.u, planar));
    if !(0 <= alpha <= FX_ONE) || !(0 <= beta <= FX_ONE) {
        None
    } else {
        Some((alpha, beta))
    }
}

/// What the quad intersection returns: the plane crossing inside the
/// interval, accepted when its planar coordinates fall inside the quad.
/// Rays nearly parallel to the plane miss.
pub open spec fn quad_hit_v(qd: Quad, r: Ray, itv: Interval) -> Option<HitRecord> {
    let denom = vec_dot_v(qd.normal, r.dir);
    if iabs(denom) < FX_NEAR_ZERO {
        None
    } else {
        let t = fx_div_v(fx_sub_v(qd.d as int, vec_dot_v(qd.normal, r.orig)), denom);
        if !(itv.min <= t <= itv.max) {
            None
        } else {
            let p = ray_at_v(r, t);
            match quad_uv_v(qd, p) {
                None => None,
                Some(uv) => {
                    let fnv = face_normal_v(r, qd.normal);
                    Some(
                        HitRecord {
                            p,
                            normal: fnv.1,
                            mat: qd.mat,
                            t: t as i64,
                            u: uv.0 as i64,
                            v: uv.1 as i64,
                            front_face: fnv.0,
                        },
                    )
                },
            }
        }
    }
}

/// The padded box a quad stores: the union of the boxes of its two
/// diagonals.
pub open spec fn quad_box_v(q: Point3, u: Vec3, v: Vec3) -> Aabb {
    box_union_v(
        crate::hittable::aabb::from_points_v(q, vec_add3_v(q, u, v)),
        crate::hittable::aabb::from_points_v(
            crate::vec3::vec_add_v(q, u),
            crate::vec3::vec_add_v(q, v),
        ),
    )
}

/// The whole value the quad constructor builds: the unit plane normal, the
/// plane offset, the planar-coordinate helper, and the padded box of the
/// diagonals.
pub open spec fn quad_v(q: Point3, u: Vec3, v: Vec3, mat: Material) -> Quad {
    let n = vec_cross_v(u, v);
    let normal = crate::vec3::vec_unit_v(n);
    Quad {
        q,
        u,
        v,
        w: vec_div_scalar_v(n, vec_dot_v(n, n)),
        bbox: quad_box_v(q, u, v),
        mat,
        normal,
        d: vec_dot_v(normal, q) as i64,
    }
}

impl Quad {
    /// A quad with corner `q` and edge vectors `u` and `v`: exactly
    /// `quad_v`, its box included.
    pub fn new(q: Point3, u: Point3, v: Point3, mat: Material) -> (r: Self)
        ensures
            r == quad_v(q, u, v, mat),
    {
        let n = u.cross(v);
        let normal = n.unit_vector();
        let d = normal.dot(q);
        let w = n.div_scalar(n.dot(n));
        let bbox = set_bounding_box(q, u, v);
        Quad { q, u, v, w, mat, bbox, normal, d }
    }

    /// The planar coordinates of an intersection point, if it lies within
    /// the quad.
    pub fn quad_uv(&self, intersection: Vec3) -> (res: Option<(i64, i64)>)
        ensures
            res is Some <==> quad_uv_v(*self, intersection) is Some,
            res matches Some(ab) ==> quad_uv_v(*self, intersection) == Some(
                (ab.0 as int, ab.1 as int),
            ),
    {
        let planar = intersection.sub(self.q);
        let alpha = self.w.dot(planar.cross(self.v));
        let beta = self.w.dot(self.u.cross(planar));
        if alpha < 0 || alpha > FX_ONE || beta < 0 || beta > FX_ONE {
            None
        } else {
            Some((alpha, beta))
        }
    }

    /// The six quads bounding the axis-aligned box with opposite corners
    /// `a` and `b`, all of one material: exactly the six faces over the
    /// per-component least and greatest corners, front, right, back, left,
    /// top and bottom, so the result does not depend on which corner is
    /// which.
    #[verifier::rlimit(100)]
    #[verifier::spinoff_prover]
    pub fn new_box(a: Point3, b: Point3, mat: Material) -> (r: HittableList)
        requires
            material_wf(mat),
        ensures
            r.objects@ == box_faces_v(a, b, mat),
            r.objects@.len() == 6,
            forall|i: int|
                0 <= i < 6 ==> crate::hittable::hittable_wf(#[trigger] r.objects@[i]),
            forall|i: int|
                0 <= i < 6 ==> crate::hittable::deterministic(#[trigger] r.objects@[i]),
    {
        let mut sides = HittableList::new();
        let minp = Point3::new(
            crate::fixed::fx_min(a.x, b.x),
            crate::fixed::fx_min(a.y, b.y),
            crate::fixed::fx_min(a.z, b.z),
        );
        let maxp = Point3::new(
            crate::fixed::fx_max(a.x, b.x),
            crate::fixed::fx_max(a.y, b.y),
            crate::fixed::fx_max(a.z, b.z),
        );
        let dx = Vec3::new(crate::fixed::fx_sub(maxp.x, minp.x), 0, 0);
        let dy = Vec3::new(0, crate::fixed::fx_sub(maxp.y, minp.y), 0);
        let dz = Vec3::new(0, 0, crate::fixed::fx_sub(maxp.z, minp.z));
        sides.add(
            Hittable::Quad(
                Quad::new(Point3::new(minp.x, minp.y, maxp.z), dx, dy, mat.clone()),
            ),
        );
        sides.add(
            Hittable::Quad(
                Quad::new(Point3::new(maxp.x, minp.y, maxp.z), dz.neg(), dy, mat.clone()),
            ),
        );
        sides.add(
            Hittable::Quad(
                Quad::new(Point3::new(maxp.x, minp.y, minp.z), dx.neg(), dy, mat.clone()),
            ),
        );
        sides.add(
            Hittable::Quad(
                Quad::new(Point3::new(minp.x, minp.y, minp.z), dz, dy, mat.clone()),
            ),
        );
        sides.add(
            Hittable::Quad(
                Quad::new(Point3::new(minp.x, maxp.y, maxp.z), dx, dz.neg(), mat.clone()),
            ),
        );
        sides.add(Hittable::Quad(Quad::new(Point3::new(minp.x, minp.y, minp.z), dx, dz, mat)));
        proof {
            let fv = box_faces_v(a, b, mat);
            assert(fv.len() == 6);
            assert(sides.objects@.len() == 6);
            assert(sides.objects@[0] == fv[0]);
            assert(sides.objects@[1] == fv[1]);
            assert(sides.objects@[2] == fv[2]);
            assert(sides.objects@[3] == fv[3]);
            assert(sides.objects@[4] == fv[4]);
            assert(sides.objects@[5] == fv[5]);
            assert(sides.objects@ =~= fv);
        }
        sides
    }
}

/// The smaller of two scalars.
pub open spec fn imin2_v(a: i64, b: i64) -> i64 {
    if a <= b {
        a
    } else {
        b
    }
}

/// The larger of two scalars.
pub open spec fn imax2_v(a: i64, b: i64) -> i64 {
    if a >= b {
        a
    } else {
        b
    }
}

/// The six axis-aligned faces over the per-component least and greatest
/// corners of `a` and `b`: front, right, back, left, top, bottom, all of
/// one material.
pub open spec fn box_faces_v(a: Point3, b: Point3, mat: Material) -> Seq<Hittable> {
    let minp = Point3 { x: imin2_v(a.x, b.x), y: imin2_v(a.y, b.y), z: imin2_v(a.z, b.z) };
    let maxp = Point3 { x: imax2_v(a.x, b.x), y: imax2_v(a.y, b.y), z: imax2_v(a.z, b.z) };
    let dx = Vec3 { x: fx_sub_v(maxp.x as int, minp.x as int) as i64, y: 0, z: 0 };
    let dy = Vec3 { x: 0, y: fx_sub_v(maxp.y as int, minp.y as int) as i64, z: 0 };
    let dz = Vec3 { x: 0, y: 0, z: fx_sub_v(maxp.z as int, minp.z as int) as i64 };
    seq![
        Hittable::Quad(quad_v(Point3 { x: minp.x, y: minp.y, z: maxp.z }, dx, dy, mat)),
        Hittable::Quad(
            quad_v(Point3 { x: maxp.x, y: minp.y, z: maxp.z }, crate::vec3::vec_neg_v(dz), dy, mat),
        ),
        Hittable::Quad(
            quad_v(Point3 { x: maxp.x, y: minp.y, z: minp.z }, crate::vec3::vec_neg_v(dx), dy, mat),
        ),
        Hittable::Quad(quad_v(Point3 { x: minp.x, y: minp.y, z: minp.z }, dz, dy, mat)),
        Hittable::Quad(
            quad_v(Point3 { x: minp.x, y: maxp.y, z: maxp.z }, dx, crate::vec3::vec_neg_v(dz), mat),
        ),
        Hittable::Quad(quad_v(Point3 { x: minp.x, y: minp.y, z: minp.z }, dx, dz, mat)),
    ]
}

/// The padded box spanning a quad: the union of the boxes of its two
/// diagonals.
pub fn set_bounding_box(q: Point3, u: Point3, v: Point3) -> (r: Aabb)
    ensures
        r == quad_box_v(q, u, v),
{
    let bbox_diagonal1 = Aabb::from_points(q, q.add(u).add(v));
    let bbox_diagonal2 = Aabb::from_points(q.add(u), q.add(v));
    Aabb::from_boxes(&bbox_diagonal1, &bbox_diagonal2)
}

/// The sum of three vectors, folded left.
pub open spec fn vec_add3_v(a: Vec3, b: Vec3, c: Vec3) -> Vec3 {
    crate::vec3::vec_add_v(crate::vec3::vec_add_v(a, b), c)
}

} // verus!
