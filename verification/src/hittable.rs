//! Geometric primitives and the intersection protocol.
//!
//! `Hittable` is the closed set of primitive variants; `hit` answers whether
//! a ray strikes the primitive within a parameter interval, and
//! `bounding_box` gives a box for culling. For every variant that draws no
//! randomness the result is pinned exactly to the spec-level mirror `hit_v`;
//! the participating medium draws its free-flight distance at random, and
//! its contract states what holds of every draw.

pub mod aabb;
pub mod bvh;
pub mod constant_medium;
pub mod hittable_list;
pub mod instance;
pub mod nearest;
pub mod quad;
pub mod sphere;

use vstd::prelude::*;
use crate::fixed::{
    fx_add, fx_add_v, fx_div, fx_div_v, fx_mul, fx_mul_v, fx_sub, fx_sub_v, FX_HUGE, FX_ONE,
};
use crate::fmath::{fx_neg_log2, FX_LN2};
use crate::interval::Interval;
use crate::material::{material_wf, Material};
use crate::ray::{ray_at_v, Ray};
use crate::rng::random_positive_unit_fx;
use crate::vec3::{vec_add_v, vec_dot_v, vec_len_v, vec_neg_v, vec_sub_v, Point3, Vec3};
use aabb::{aabb_hit_v, Aabb};
use bvh::BvhNode;
use constant_medium::ConstantMedium;
use hittable_list::HittableList;
use instance::{Translate, YRotate};
use quad::{quad_hit_v, Quad};
use sphere::{sphere_hit_v, Sphere};

verus! {

/// Boundary hits of a medium are probed this far past the entry, so that the
/// exit crossing is found and not the entry again.
pub const FX_MEDIUM_EPS: i64 = 7;

/// What a successful intersection reports: the hit point, the sign-corrected
/// surface normal with the side that was struck, the material, the ray
/// parameter, and the surface coordinates.
pub struct HitRecord {
    pub p: Point3,
    pub normal: Vec3,
    pub mat: Material,
    pub t: i64,
    pub u: i64,
    pub v: i64,
    pub front_face: bool,
}

/// The face flag and corrected normal for a hit: the outward normal if the
/// ray arrives against it, else its negation.
pub open spec fn face_normal_v(r: Ray, outward_normal: Vec3) -> (bool, Vec3) {
    let front_face = vec_dot_v(r.dir, outward_normal) < 0;
    (
        front_face,
        if front_face {
            outward_normal
        } else {
            vec_neg_v(outward_normal)
        },
    )
}

/// Correct an outward normal against the ray direction.
pub fn get_face_normal(r: Ray, outward_normal: Vec3) -> (res: (bool, Vec3))
    ensures
        res == face_normal_v(r, outward_normal),
{
    let front_face = r.direction().dot(outward_normal) < 0;
    let normal = if front_face {
        outward_normal
    } else {
        outward_normal.neg()
    };
    (front_face, normal)
}

/// The closed set of primitive variants.
pub enum Hittable {
    Sphere(Sphere),
    Quad(Quad),
    ConstantMedium(ConstantMedium),
    HittableList(HittableList),
    BvhNode(BvhNode),
    Translate(Translate),
    YRotate(YRotate),
}

/// A usable primitive: every material's texture is usable, every medium has
/// a non-negative mean free path, recursively through the tree.
pub open spec fn hittable_wf(h: Hittable) -> bool
    decreases h,
{
    match h {
        Hittable::Sphere(s) => material_wf(s.mat),
        Hittable::Quad(q) => material_wf(q.mat),
        Hittable::ConstantMedium(m) => hittable_wf(*m.boundary) && material_wf(m.phase_function)
            && m.inv_density >= 0,
        Hittable::HittableList(l) => list_wf(l.objects@),
        Hittable::BvhNode(b) => hittable_wf(*b.left) && hittable_wf(*b.right),
        Hittable::Translate(t) => hittable_wf(*t.object),
        Hittable::YRotate(y) => hittable_wf(*y.object),
    }
}

/// Every primitive of a sequence is usable.
pub open spec fn list_wf(s: Seq<Hittable>) -> bool
    decreases s,
{
    s.len() == 0 || (list_wf(s.drop_last()) && hittable_wf(s.last()))
}

/// `list_wf` says exactly that every element is well formed.
pub proof fn lemma_list_wf_char(s: Seq<Hittable>)
    ensures
        list_wf(s) <==> (forall|i: int| 0 <= i < s.len() ==> hittable_wf(#[trigger] s[i])),
    decreases s.len(),
{
    if s.len() > 0 {
        lemma_list_wf_char(s.drop_last());
        if list_wf(s) {
            assert forall|i: int| 0 <= i < s.len() implies hittable_wf(#[trigger] s[i]) by {
                if i < s.len() - 1 {
                    assert(s.drop_last()[i] == s[i]);
                } else {
                    assert(s[i] == s.last());
                }
            }
        }
        if forall|i: int| 0 <= i < s.len() ==> hittable_wf(#[trigger] s[i]) {
            assert forall|i: int| 0 <= i < s.drop_last().len() implies hittable_wf(
                #[trigger] s.drop_last()[i],
            ) by {
                assert(s.drop_last()[i] == s[i]);
            }
            assert(hittable_wf(s.last()));
        }
    }
}

/// Whether a primitive's intersection result depends on nothing but its
/// arguments: true of everything except a participating medium, whose hit is
/// sampled at random.
pub open spec fn deterministic(h: Hittable) -> bool
    decreases h,
{
    match h {
        Hittable::Sphere(_) => true,
        Hittable::Quad(_) => true,
        Hittable::ConstantMedium(_) => false,
        Hittable::HittableList(l) => det_seq(l.objects@),
        Hittable::BvhNode(b) => deterministic(*b.left) && deterministic(*b.right),
        Hittable::Translate(t) => deterministic(*t.object),
        Hittable::YRotate(y) => deterministic(*y.object),
    }
}

/// Every primitive of a sequence is deterministic.
pub open spec fn det_seq(s: Seq<Hittable>) -> bool
    decreases s,
{
    s.len() == 0 || (det_seq(s.drop_last()) && deterministic(s.last()))
}

/// `det_seq` says exactly that every element is deterministic.
pub proof fn lemma_det_seq_char(s: Seq<Hittable>)
    ensures
        det_seq(s) <==> (forall|i: int| 0 <= i < s.len() ==> deterministic(#[trigger] s[i])),
    decreases s.len(),
{
    if s.len() > 0 {
        lemma_det_seq_char(s.drop_last());
        if det_seq(s) {
            assert forall|i: int| 0 <= i < s.len() implies deterministic(#[trigger] s[i]) by {
                if i < s.len() - 1 {
                    assert(s.drop_last()[i] == s[i]);
                } else {
                    assert(s[i] == s.last());
                }
            }
        }
        if forall|i: int| 0 <= i < s.len() ==> deterministic(#[trigger] s[i]) {
            assert forall|i: int| 0 <= i < s.drop_last().len() implies deterministic(
                #[trigger] s.drop_last()[i],
            ) by {
                assert(s.drop_last()[i] == s[i]);
            }
            assert(deterministic(s.last()));
        }
    }
}

/// The box of a primitive, as `bounding_box` computes it.
pub open spec fn bounding_box_v(h: Hittable) -> Aabb
    decreases h,
{
    match h {
        Hittable::Sphere(s) => s.bbox,
        Hittable::Quad(q) => q.bbox,
        Hittable::ConstantMedium(m) => bounding_box_v(*m.boundary),
        Hittable::HittableList(l) => l.bbox,
        Hittable::BvhNode(b) => b.bbox,
        Hittable::Translate(t) => t.bbox,
        Hittable::YRotate(y) => y.bbox,
    }
}

/// What the medium arm of `hit` builds from two boundary crossings and a
/// positive unit draw: the exactly sampled parameter, the point along the
/// ray there, the phase function, zeroed surface coordinates, and the
/// arbitrary fixed normal.
pub open spec fn medium_outcome_v(
    m: ConstantMedium,
    r: Ray,
    ray_t: Interval,
    c1: Option<HitRecord>,
    c2: Option<HitRecord>,
    draw: i64,
) -> Option<HitRecord> {
    match c1 {
        None => None,
        Some(rc1) => match c2 {
            None => None,
            Some(rc2) => match constant_medium::medium_sample_v(
                rc1.t as int,
                rc2.t as int,
                vec_len_v(r.dir),
                constant_medium::flight_distance_v(m.inv_density as int, draw as int),
                ray_t,
            ) {
                None => None,
                Some(t) => Some(
                    HitRecord {
                        t,
                        p: ray_at_v(r, t as int),
                        normal: Vec3 { x: FX_ONE, y: 0, z: 0 },
                        front_face: true,
                        mat: m.phase_function,
                        u: 0,
                        v: 0,
                    },
                ),
            },
        },
    }
}

/// What the medium arm of `hit` guarantees: the result is
/// `medium_outcome_v` at two boundary crossings and some positive unit
/// draw; when the boundary is deterministic the crossings are pinned to its
/// own hits — the first over the universal interval, the second probed just
/// past the first.
pub open spec fn medium_hit_ens(
    m: ConstantMedium,
    r: Ray,
    ray_t: Interval,
    res: Option<HitRecord>,
) -> bool {
    exists|c1: Option<HitRecord>, c2: Option<HitRecord>, draw: i64|
        {
            &&& 0 < draw <= FX_ONE
            &&& (deterministic(*m.boundary) ==> {
                &&& c1 == hit_v(
                    *m.boundary,
                    r,
                    Interval { min: (-FX_HUGE) as i64, max: FX_HUGE },
                )
                &&& (c1 matches Some(rc1) ==> c2 == hit_v(
                    *m.boundary,
                    r,
                    Interval {
                        min: fx_add_v(rc1.t as int, FX_MEDIUM_EPS as int) as i64,
                        max: FX_HUGE,
                    },
                ))
            })
            &&& #[trigger] medium_outcome_v(m, r, ray_t, c1, c2, draw) == res
        }
}

/// A ray rotated into the object space of a y-rotation.
pub open spec fn rot_in_v(v: Vec3, sin_theta: int, cos_theta: int) -> Vec3 {
    Vec3 {
        x: fx_sub_v(fx_mul_v(cos_theta, v.x as int), fx_mul_v(sin_theta, v.z as int)) as i64,
        y: v.y,
        z: fx_add_v(fx_mul_v(sin_theta, v.x as int), fx_mul_v(cos_theta, v.z as int)) as i64,
    }
}

/// A point or normal rotated back into world space.
pub open spec fn rot_out_v(v: Vec3, sin_theta: int, cos_theta: int) -> Vec3 {
    Vec3 {
        x: fx_add_v(fx_mul_v(cos_theta, v.x as int), fx_mul_v(sin_theta, v.z as int)) as i64,
        y: v.y,
        z: fx_sub_v(fx_mul_v(cos_theta, v.z as int), fx_mul_v(sin_theta, v.x as int)) as i64,
    }
}

/// What `hit` returns for a deterministic primitive.
pub open spec fn hit_v(h: Hittable, r: Ray, itv: Interval) -> Option<HitRecord>
    decreases h,
{
    match h {
        Hittable::Sphere(s) => sphere_hit_v(s, r, itv),
        Hittable::Quad(q) => quad_hit_v(q, r, itv),
        Hittable::ConstantMedium(_) => None,
        Hittable::HittableList(l) => hit_list_v(l.objects@, r, itv),
        Hittable::BvhNode(b) => if !aabb_hit_v(b.bbox, r, itv) {
            None
        } else {
            let left_res = hit_v(*b.left, r, itv);
            let right_itv = match left_res {
                Some(rec) => Interval { min: itv.min, max: rec.t },
                None => itv,
            };
            match hit_v(*b.right, r, right_itv) {
                Some(rrec) => Some(rrec),
                None => left_res,
            }
        },
        Hittable::Translate(t) => {
            let offset_r = Ray { orig: vec_sub_v(r.orig, t.offset), dir: r.dir, time: r.time };
            match hit_v(*t.object, offset_r, itv) {
                Some(rec) => Some(
                    HitRecord {
                        p: vec_add_v(rec.p, t.offset),
                        normal: rec.normal,
                        mat: rec.mat,
                        t: rec.t,
                        u: rec.u,
                        v: rec.v,
                        front_face: rec.front_face,
                    },
                ),
                None => None,
            }
        },
        Hittable::YRotate(rot) => {
            let rr = Ray {
                orig: rot_in_v(r.orig, rot.sin_theta as int, rot.cos_theta as int),
                dir: rot_in_v(r.dir, rot.sin_theta as int, rot.cos_theta as int),
                time: r.time,
            };
            match hit_v(*rot.object, rr, itv) {
                Some(rec) => Some(
                    HitRecord {
                        p: rot_out_v(rec.p, rot.sin_theta as int, rot.cos_theta as int),
                        normal: rot_out_v(rec.normal, rot.sin_theta as int, rot.cos_theta as int),
                        mat: rec.mat,
                        t: rec.t,
                        u: rec.u,
                        v: rec.v,
                        front_face: rec.front_face,
                    },
                ),
                None => None,
            }
        },
    }
}

/// What the linear scan over a sequence returns: each object is queried with
/// the interval narrowed to the nearest hit so far, and the last hit found
/// wins.
pub open spec fn hit_list_v(s: Seq<Hittable>, r: Ray, itv: Interval) -> Option<HitRecord>
    decreases s,
{
    if s.len() == 0 {
        None
    } else {
        let prev = hit_list_v(s.drop_last(), r, itv);
        let last_itv = match prev {
            Some(rec) => Interval { min: itv.min, max: rec.t },
            None => itv,
        };
        match hit_v(s.last(), r, last_itv) {
            Some(rec) => Some(rec),
            None => prev,
        }
    }
}

/// The primitives a tree of nodes stands over: the concatenated leaves of a
/// node, the single primitive otherwise. An empty list contributes nothing.
pub open spec fn leaves_v(h: Hittable) -> Seq<Hittable>
    decreases h,
{
    match h {
        Hittable::BvhNode(b) => leaves_v(*b.left) + leaves_v(*b.right),
        Hittable::HittableList(l) => if l.objects@.len() == 0 {
            Seq::empty()
        } else {
            seq![h]
        },
        _ => seq![h],
    }
}

/// Whether every node of a tree culls completely for a ray: whenever the
/// linear scan over the node's leaves finds a hit in some interval, the
/// node's box passes the slab test for that interval. Padded boxes make this
/// hold in practice; it is exactly the hypothesis under which culling is
/// lossless.
pub open spec fn cull_complete(h: Hittable, r: Ray) -> bool
    decreases h,
{
    match h {
        Hittable::BvhNode(b) => (forall|itv: Interval|
            hit_list_v(leaves_v(h), r, itv) is Some ==> #[trigger] aabb_hit_v(b.bbox, r, itv))
            && cull_complete(*b.left, r) && cull_complete(*b.right, r),
        _ => true,
    }
}

/// Scanning a concatenation is scanning the first part, then the second
/// with the interval narrowed to the first part's nearest hit.
pub proof fn lemma_scan_append(s1: Seq<Hittable>, s2: Seq<Hittable>, r: Ray, itv: Interval)
    ensures
        hit_list_v(s1 + s2, r, itv) == {
            let a = hit_list_v(s1, r, itv);
            let itv2 = match a {
                Some(rec) => Interval { min: itv.min, max: rec.t },
                None => itv,
            };
            match hit_list_v(s2, r, itv2) {
                Some(rec) => Some(rec),
                None => a,
            }
        },
    decreases s2.len(),
{
    if s2.len() == 0 {
        assert(s1 + s2 =~= s1);
    } else {
        lemma_scan_append(s1, s2.drop_last(), r, itv);
        assert((s1 + s2).drop_last() =~= s1 + s2.drop_last());
        assert((s1 + s2).last() == s2.last());
    }
}

/// The law of hierarchy traversal: whenever every node of the tree culls
/// completely for a ray, traversing the tree returns exactly what the
/// reference linear scan over its leaves returns — the globally nearest hit,
/// record for record, for every query interval.
pub proof fn lemma_bvh_hit_equals_linear_scan(h: Hittable, r: Ray, itv: Interval)
    requires
        cull_complete(h, r),
    ensures
        hit_v(h, r, itv) == hit_list_v(leaves_v(h), r, itv),
    decreases h,
{
    match h {
        Hittable::BvhNode(b) => {
            let ls = leaves_v(h);
            if !aabb_hit_v(b.bbox, r, itv) {
                if hit_list_v(ls, r, itv) is Some {
                    assert(aabb_hit_v(b.bbox, r, itv));
                }
                assert(hit_v(h, r, itv) is None);
            } else {
                lemma_bvh_hit_equals_linear_scan(*b.left, r, itv);
                let a = hit_v(*b.left, r, itv);
                let itv2 = match a {
                    Some(rec) => Interval { min: itv.min, max: rec.t },
                    None => itv,
                };
                lemma_bvh_hit_equals_linear_scan(*b.right, r, itv2);
                lemma_scan_append(leaves_v(*b.left), leaves_v(*b.right), r, itv);
                assert(ls == leaves_v(*b.left) + leaves_v(*b.right));
            }
        },
        Hittable::HittableList(l) => {
            if l.objects@.len() == 0 {
                assert(hit_list_v(l.objects@, r, itv) is None);
                assert(hit_list_v(Seq::<Hittable>::empty(), r, itv) is None);
            } else {
                lemma_scan_singleton(h, r, itv);
            }
        },
        _ => {
            lemma_scan_singleton(h, r, itv);
        },
    }
}

/// Every record a scan returns is the hit of one of its primitives, queried
/// within the original interval.
pub proof fn lemma_scan_found(s: Seq<Hittable>, r: Ray, itv: Interval)
    ensures
        hit_list_v(s, r, itv) matches Some(rec) ==> exists|i: int, sub: Interval|
            0 <= i < s.len() && sub.min == itv.min && #[trigger] hit_v(s[i], r, sub) == Some(rec),
    decreases s.len(),
{
    if s.len() > 0 {
        lemma_scan_found(s.drop_last(), r, itv);
        let prev = hit_list_v(s.drop_last(), r, itv);
        let last_itv = match prev {
            Some(rec) => Interval { min: itv.min, max: rec.t },
            None => itv,
        };
        let res = hit_list_v(s, r, itv);
        if res is Some {
            let rec = res->Some_0;
            match hit_v(s.last(), r, last_itv) {
                Some(lrec) => {
                    assert(s[s.len() - 1] == s.last());
                    assert(hit_v(s[s.len() - 1], r, last_itv) == Some(rec));
                },
                None => {
                    let (i, sub) = choose|i: int, sub: Interval|
                        0 <= i < s.drop_last().len() && sub.min == itv.min && #[trigger] hit_v(
                            s.drop_last()[i],
                            r,
                            sub,
                        ) == Some(rec);
                    assert(s.drop_last()[i] == s[i]);
                    assert(hit_v(s[i], r, sub) == Some(rec));
                },
            }
        }
    }
}

/// Scanning a single primitive is querying it with the whole interval.
proof fn lemma_scan_singleton(h: Hittable, r: Ray, itv: Interval)
    ensures
        hit_list_v(seq![h], r, itv) == hit_v(h, r, itv),
{
    assert(seq![h].drop_last() =~= Seq::<Hittable>::empty());
    assert(seq![h].last() == h);
    assert(hit_list_v(Seq::<Hittable>::empty(), r, itv) is None);
}

/// A scaled distance divides back without growing: if `hd` is at most the
/// fixed-point product of `d` with a positive `rl`, then the fixed-point
/// quotient of `hd` by `rl` is between zero and `d`.
pub(crate) proof fn lemma_scaled_distance(hd: int, d: int, rl: int)
    requires
        0 <= hd,
        hd <= fx_mul_v(d, rl),
        0 <= d <= FX_HUGE,
        0 < rl,
    ensures
        0 <= fx_div_v(hd, rl) <= d,
{
    let one = FX_ONE as int;
    assert(0 <= d * rl) by (nonlinear_arith)
        requires
            0 <= d,
            0 < rl,
    ;
    // The fixed-point product is at most the exact product scaled down.
    vstd::arithmetic::div_mod::lemma_fundamental_div_mod(d * rl, one);
    assert(fx_mul_v(d, rl) <= (d * rl) / one);
    // Scale the inequality back up: hd * one <= d * rl.
    vstd::arithmetic::mul::lemma_mul_inequality(hd, (d * rl) / one, one);
    assert(((d * rl) / one) * one <= d * rl);
    assert(hd * one <= d * rl);
    // Divide by rl on both sides.
    vstd::arithmetic::div_mod::lemma_div_is_ordered(hd * one, d * rl, rl);
    assert(d * rl == rl * d) by (nonlinear_arith);
    vstd::arithmetic::div_mod::lemma_div_multiples_vanish(d, rl);
    assert(0 <= hd * one) by (nonlinear_arith)
        requires
            0 <= hd,
            0 < one,
    ;
    vstd::arithmetic::div_mod::lemma_div_is_ordered(0, hd * one, rl);
}

impl Hittable {
    /// Whether the ray strikes this primitive within `ray_t`, and what it
    /// struck. Every returned parameter lies within the queried interval and
    /// carries a usable material; for deterministic primitives the whole
    /// record equals the spec-level `hit_v`.
    #[verifier::rlimit(100)]
    pub fn hit(&self, r: Ray, ray_t: Interval) -> (res: Option<HitRecord>)
        requires
            hittable_wf(*self),
        ensures
            res matches Some(rec) ==> ray_t.min <= rec.t <= ray_t.max && material_wf(rec.mat),
            deterministic(*self) ==> res == hit_v(*self, r, ray_t),
            *self is ConstantMedium ==> medium_hit_ens(self->ConstantMedium_0, r, ray_t, res),
        decreases *self,
    {
        match self {
            Hittable::Sphere(s) => {
                let center = s.sphere_center(r.time());
                let oc = center.sub(*r.origin());
                let a = r.direction().length_squared();
                let h = r.direction().dot(oc);
                let c = fx_sub(oc.length_squared(), fx_mul(s.radius, s.radius));
                let discriminant = fx_sub(fx_mul(h, h), fx_mul(a, c));
                if discriminant < 0 {
                    return None;
                }
                let sqrtd = crate::fmath::fx_sqrt(discriminant);
                let mut root = fx_div(fx_sub(h, sqrtd), a);
                if !ray_t.surrounds(root) {
                    root = fx_div(fx_add(h, sqrtd), a);
                    if !ray_t.surrounds(root) {
                        return None;
                    }
                }
                let p = r.at(root);
                let mat = s.mat.clone();
                let outward_normal = p.sub(center).div_scalar(s.radius);
                let fn_pair = get_face_normal(r, outward_normal);
                let uv = Sphere::get_sphere_uv(outward_normal);
                Some(
                    HitRecord {
                        t: root,
                        p,
                        mat,
                        normal: fn_pair.1,
                        front_face: fn_pair.0,
                        u: uv.0,
                        v: uv.1,
                    },
                )
            },
            Hittable::Quad(q) => {
                let denom = q.normal.dot(*r.direction());
                if crate::fixed::fx_abs(denom) < crate::vec3::FX_NEAR_ZERO {
                    return None;
                }
                let t = fx_div(fx_sub(q.d, q.normal.dot(*r.origin())), denom);
                if !ray_t.contains(t) {
                    return None;
                }
                let p = r.at(t);
                let uv = q.quad_uv(p);
                match uv {
                    None => None,
                    Some(ab) => {
                        let mat = q.mat.clone();
                        let fn_pair = get_face_normal(r, q.normal);
                        Some(
                            HitRecord {
                                p,
                                normal: fn_pair.1,
                                mat,
                                t,
                                u: ab.0,
                                v: ab.1,
                                front_face: fn_pair.0,
                            },
                        )
                    },
                }
            },
            Hittable::ConstantMedium(m) => {
                proof {
                    assert(decreases_to!(*self => self->ConstantMedium_0));
                    assert(decreases_to!(self->ConstantMedium_0 => self->ConstantMedium_0.boundary));
                }
                let rec1 = m.boundary.hit(r, Interval::universe());
                let ghost g1 = rec1;
                let t1_first = match rec1 {
                    Some(rec) => rec.t,
                    None => {
                        proof {
                            assert(medium_outcome_v(*m, r, ray_t, g1, None, 1i64) == None::<
                                HitRecord,
                            >);
                        }
                        return None;
                    },
                };
                let rec2 = m.boundary.hit(r, Interval::new(fx_add(t1_first, FX_MEDIUM_EPS), FX_HUGE));
                let ghost g2 = rec2;
                let t2_first = match rec2 {
                    Some(rec) => rec.t,
                    None => {
                        proof {
                            assert(medium_outcome_v(*m, r, ray_t, g1, g2, 1i64) == None::<
                                HitRecord,
                            >);
                        }
                        return None;
                    },
                };
                let ray_length = r.direction().length();
                let draw = random_positive_unit_fx();
                let sampled = constant_medium::medium_sample(
                    t1_first,
                    t2_first,
                    ray_length,
                    m.inv_density,
                    draw,
                    ray_t,
                );
                match sampled {
                    None => {
                        proof {
                            assert(medium_outcome_v(*m, r, ray_t, g1, g2, draw) == None::<
                                HitRecord,
                            >);
                        }
                        None
                    },
                    Some(t) => {
                        let p = r.at(t);
                        let res = Some(
                            HitRecord {
                                t,
                                p,
                                normal: Vec3::new(FX_ONE, 0, 0),
                                front_face: true,
                                mat: m.phase_function.clone(),
                                u: 0,
                                v: 0,
                            },
                        );
                        proof {
                            assert(medium_outcome_v(*m, r, ray_t, g1, g2, draw) == res);
                        }
                        res
                    },
                }
            },
            Hittable::HittableList(l) => {
                proof {
                    assert(decreases_to!(*self => self->HittableList_0));
                    assert(decreases_to!(self->HittableList_0 => self->HittableList_0.objects));
                    assert(decreases_to!(self->HittableList_0.objects => self->HittableList_0.objects@));
                    lemma_list_wf_char(l.objects@);
                    if det_seq(l.objects@) {
                        lemma_det_seq_char(l.objects@);
                    }
                }
                let objects: &Vec<Hittable> = &l.objects;
                let mut closest = ray_t.max;
                let mut result: Option<HitRecord> = None;
                let mut i: usize = 0;
                while i < objects.len()
                    invariant
                        i <= objects@.len(),
                        *self is HittableList,
                        objects@ == self->HittableList_0.objects@,
                        objects == &self->HittableList_0.objects,
                        forall|k: int|
                            0 <= k < objects@.len() ==> hittable_wf(#[trigger] objects@[k]),
                        result matches Some(rec) ==> ray_t.min <= rec.t <= ray_t.max
                            && material_wf(rec.mat) && closest == rec.t,
                        result is None ==> closest == ray_t.max,
                        det_seq(objects@) ==> {
                            &&& result == hit_list_v(objects@.take(i as int), r, ray_t)
                            &&& (forall|k: int|
                                0 <= k < objects@.len() ==> deterministic(#[trigger] objects@[k]))
                        },
                    decreases objects@.len() - i,
                {
                    proof {
                        assert(decreases_to!(*self => self->HittableList_0));
                        assert(decreases_to!(self->HittableList_0 => self->HittableList_0.objects));
                        assert(decreases_to!(self->HittableList_0.objects => self->HittableList_0.objects@));
                        assert(decreases_to!(self->HittableList_0.objects@ => self->HittableList_0.objects@[i as int]));
                    }
                    let sub_itv = Interval::new(ray_t.min, closest);
                    let this_res = objects[i].hit(r, sub_itv);
                    proof {
                        if det_seq(objects@) {
                            assert(objects@.take(i + 1).drop_last() =~= objects@.take(i as int));
                            assert(objects@.take(i + 1).last() == objects@[i as int]);
                        }
                    }
                    match this_res {
                        Some(rec) => {
                            closest = rec.t;
                            result = Some(rec);
                        },
                        None => {},
                    }
                    i = i + 1;
                }
                proof {
                    assert(objects@.take(objects@.len() as int) =~= objects@);
                }
                result
            },
            Hittable::BvhNode(b) => {
                proof {
                    assert(decreases_to!(*self => self->BvhNode_0));
                    assert(decreases_to!(self->BvhNode_0 => self->BvhNode_0.left));
                    assert(decreases_to!(self->BvhNode_0 => self->BvhNode_0.right));
                }
                if !b.bbox.hit(r, ray_t) {
                    return None;
                }
                let left_res = b.left.hit(r, ray_t);
                let right_itv = match &left_res {
                    Some(rec) => Interval::new(ray_t.min, rec.t),
                    None => ray_t,
                };
                let right_res = b.right.hit(r, right_itv);
                match right_res {
                    Some(rec) => Some(rec),
                    None => left_res,
                }
            },
            Hittable::Translate(t) => {
                proof {
                    assert(decreases_to!(*self => self->Translate_0));
                    assert(decreases_to!(self->Translate_0 => self->Translate_0.object));
                }
                let offset_r = Ray::with_time(r.origin().sub(t.offset), *r.direction(), r.time());
                match t.object.hit(offset_r, ray_t) {
                    Some(rec) => Some(
                        HitRecord {
                            p: rec.p.add(t.offset),
                            normal: rec.normal,
                            mat: rec.mat,
                            t: rec.t,
                            u: rec.u,
                            v: rec.v,
                            front_face: rec.front_face,
                        },
                    ),
                    None => None,
                }
            },
            Hittable::YRotate(rot) => {
                proof {
                    assert(decreases_to!(*self => self->YRotate_0));
                    assert(decreases_to!(self->YRotate_0 => self->YRotate_0.object));
                }
                let o = *r.origin();
                let d = *r.direction();
                let origin = Vec3::new(
                    fx_sub(fx_mul(rot.cos_theta, o.x), fx_mul(rot.sin_theta, o.z)),
                    o.y,
                    fx_add(fx_mul(rot.sin_theta, o.x), fx_mul(rot.cos_theta, o.z)),
                );
                let direction = Vec3::new(
                    fx_sub(fx_mul(rot.cos_theta, d.x), fx_mul(rot.sin_theta, d.z)),
                    d.y,
                    fx_add(fx_mul(rot.sin_theta, d.x), fx_mul(rot.cos_theta, d.z)),
                );
                let rotated_r = Ray::with_time(origin, direction, r.time());
                match rot.object.hit(rotated_r, ray_t) {
                    Some(rec) => {
                        let p = Vec3::new(
                            fx_add(fx_mul(rot.cos_theta, rec.p.x), fx_mul(rot.sin_theta, rec.p.z)),
                            rec.p.y,
                            fx_sub(fx_mul(rot.cos_theta, rec.p.z), fx_mul(rot.sin_theta, rec.p.x)),
                        );
                        let normal = Vec3::new(
                            fx_add(
                                fx_mul(rot.cos_theta, rec.normal.x),
                                fx_mul(rot.sin_theta, rec.normal.z),
                            ),
                            rec.normal.y,
                            fx_sub(
                                fx_mul(rot.cos_theta, rec.normal.z),
                                fx_mul(rot.sin_theta, rec.normal.x),
                            ),
                        );
                        Some(
                            HitRecord {
                                p,
                                normal,
                                mat: rec.mat,
                                t: rec.t,
                                u: rec.u,
                                v: rec.v,
                                front_face: rec.front_face,
                            },
                        )
                    },
                    None => None,
                }
            },
        }
    }

    /// Whether the primitive is usable, decided at run time: exactly the
    /// well-formedness that `hit` requires.
    pub fn is_well_formed(&self) -> (r: bool)
        ensures
            r == hittable_wf(*self),
        decreases *self,
    {
        match self {
            Hittable::Sphere(s) => s.mat.is_well_formed(),
            Hittable::Quad(q) => q.mat.is_well_formed(),
            Hittable::ConstantMedium(m) => {
                proof {
                    assert(decreases_to!(*self => self->ConstantMedium_0));
                    assert(decreases_to!(self->ConstantMedium_0 => self->ConstantMedium_0.boundary));
                }
                m.boundary.is_well_formed() && m.phase_function.is_well_formed() && m.inv_density
                    >= 0
            },
            Hittable::HittableList(l) => {
                proof {
                    assert(decreases_to!(*self => self->HittableList_0));
                    assert(decreases_to!(self->HittableList_0 => self->HittableList_0.objects));
                    assert(decreases_to!(self->HittableList_0.objects => self->HittableList_0.objects@));
                    lemma_list_wf_char(l.objects@);
                }
                let objects: &Vec<Hittable> = &l.objects;
                let mut i: usize = 0;
                let mut ok = true;
                while i < objects.len()
                    invariant
                        i <= objects@.len(),
                        *self is HittableList,
                        objects@ == self->HittableList_0.objects@,
                        objects == &self->HittableList_0.objects,
                        ok == (forall|k: int|
                            0 <= k < i ==> hittable_wf(#[trigger] objects@[k])),
                    decreases objects@.len() - i,
                {
                    proof {
                        assert(decreases_to!(*self => self->HittableList_0));
                        assert(decreases_to!(self->HittableList_0 => self->HittableList_0.objects));
                        assert(decreases_to!(self->HittableList_0.objects => self->HittableList_0.objects@));
                        assert(decreases_to!(self->HittableList_0.objects@ => self->HittableList_0.objects@[i as int]));
                    }
                    if !objects[i].is_well_formed() {
                        ok = false;
                    }
                    i = i + 1;
                }
                ok
            },
            Hittable::BvhNode(b) => {
                proof {
                    assert(decreases_to!(*self => self->BvhNode_0));
                    assert(decreases_to!(self->BvhNode_0 => self->BvhNode_0.left));
                    assert(decreases_to!(self->BvhNode_0 => self->BvhNode_0.right));
                }
                b.left.is_well_formed() && b.right.is_well_formed()
            },
            Hittable::Translate(t) => {
                proof {
                    assert(decreases_to!(*self => self->Translate_0));
                    assert(decreases_to!(self->Translate_0 => self->Translate_0.object));
                }
                t.object.is_well_formed()
            },
            Hittable::YRotate(y) => {
                proof {
                    assert(decreases_to!(*self => self->YRotate_0));
                    assert(decreases_to!(self->YRotate_0 => self->YRotate_0.object));
                }
                y.object.is_well_formed()
            },
        }
    }

    /// The bounding box of the primitive: a culling aid, not a guarantee.
    /// Constructors build boxes that span their geometry and padding widens
    /// degenerate ones, but under truncating arithmetic no contract can
    /// promise that every hit parameter survives the slab test of the box;
    /// that losslessness is exactly the `cull_complete` hypothesis the
    /// nearest-hit law of the hierarchy takes per ray.
    pub fn bounding_box(&self) -> (res: Aabb)
        ensures
            res == bounding_box_v(*self),
        decreases *self,
    {
        match self {
            Hittable::Sphere(s) => s.bbox,
            Hittable::Quad(q) => q.bbox,
            Hittable::ConstantMedium(m) => {
                proof {
                    assert(decreases_to!(*self => self->ConstantMedium_0));
                    assert(decreases_to!(self->ConstantMedium_0 => self->ConstantMedium_0.boundary));
                }
                m.boundary.bounding_box()
            },
            Hittable::HittableList(l) => l.bbox,
            Hittable::BvhNode(b) => b.bbox,
            Hittable::Translate(t) => t.bbox,
            Hittable::YRotate(y) => y.bbox,
        }
    }
}

} // verus!
