//! The nearest-hit laws of the linear scan.
//!
//! The scan narrows its interval as it walks, so it is not obvious that its
//! result is order-independent. Over box-free primitives this module pins it
//! down: the parameter the scan returns is exactly the least parameter any of
//! its primitives yields on the full interval, and is therefore the same for
//! every reordering — which closes the gap between a tree traversal over
//! sorted leaves and the brute-force scan over the primitives as built.

use vstd::prelude::*;
use crate::fixed::{fx_add_v, fx_div_v, fx_mul_v, FX_ONE};
use crate::interval::Interval;
use crate::ray::Ray;
use crate::vec3::{vec_dot_v, Vec3};
use super::{hit_list_v, hit_v, HitRecord, Hittable};

verus! {

/// A primitive whose traversal consults no bounding box: every variant but a
/// tree node, recursively.
pub open spec fn boxless(h: Hittable) -> bool
    decreases h,
{
    match h {
        Hittable::BvhNode(_) => false,
        Hittable::HittableList(l) => boxless_seq(l.objects@),
        Hittable::Translate(t) => boxless(*t.object),
        Hittable::YRotate(y) => boxless(*y.object),
        _ => true,
    }
}

/// Every primitive of a sequence is box-free.
pub open spec fn boxless_seq(s: Seq<Hittable>) -> bool
    decreases s,
{
    s.len() == 0 || (boxless_seq(s.drop_last()) && boxless(s.last()))
}

/// `boxless_seq` says exactly that every element is box-free.
pub proof fn lemma_boxless_seq_char(s: Seq<Hittable>)
    ensures
        boxless_seq(s) <==> (forall|i: int| 0 <= i < s.len() ==> boxless(#[trigger] s[i])),
    decreases s.len(),
{
    if s.len() > 0 {
        lemma_boxless_seq_char(s.drop_last());
        if boxless_seq(s) {
            assert forall|i: int| 0 <= i < s.len() implies boxless(#[trigger] s[i]) by {
                if i < s.len() - 1 {
                    assert(s.drop_last()[i] == s[i]);
                } else {
                    assert(s[i] == s.last());
                }
            }
        }
        if forall|i: int| 0 <= i < s.len() ==> boxless(#[trigger] s[i]) {
            assert forall|i: int| 0 <= i < s.drop_last().len() implies boxless(
                #[trigger] s.drop_last()[i],
            ) by {
                assert(s.drop_last()[i] == s[i]);
            }
            assert(boxless(s.last()));
        }
    }
}

/// The parameter of an optional hit.
pub open spec fn opt_t(res: Option<HitRecord>) -> Option<i64> {
    match res {
        Some(rec) => Some(rec.t),
        None => None,
    }
}

/// The smaller of two optional parameters, absent values losing.
pub open spec fn opt_min(a: Option<i64>, b: Option<i64>) -> Option<i64> {
    match (a, b) {
        (Some(x), Some(y)) => Some(
            if x <= y {
                x
            } else {
                y
            },
        ),
        (Some(x), None) => a,
        (None, _) => b,
    }
}

/// The least parameter any primitive of the sequence yields when each is
/// queried with the whole interval: the reference answer of a brute-force
/// scan without narrowing.
pub open spec fn best_t(s: Seq<Hittable>, r: Ray, itv: Interval) -> Option<i64>
    decreases s,
{
    if s.len() == 0 {
        None
    } else {
        opt_min(best_t(s.drop_last(), r, itv), opt_t(hit_v(s.last(), r, itv)))
    }
}

/// Every hit a primitive reports lies within the queried interval.
pub proof fn lemma_hit_v_bounds(h: &Hittable, r: Ray, itv: Interval)
    ensures
        hit_v(*h, r, itv) matches Some(rec) ==> itv.min <= rec.t <= itv.max,
    decreases *h,
{
    match h {
        Hittable::BvhNode(b) => {
            lemma_hit_v_bounds(&*b.left, r, itv);
            let a = hit_v(*b.left, r, itv);
            let itv2 = match a {
                Some(rec) => Interval { min: itv.min, max: rec.t },
                None => itv,
            };
            lemma_hit_v_bounds(&*b.right, r, itv2);
        },
        Hittable::HittableList(l) => {
            lemma_scan_bounds(l.objects@, r, itv);
        },
        Hittable::Translate(t) => {
            let offset_r = Ray {
                orig: crate::vec3::vec_sub_v(r.orig, t.offset),
                dir: r.dir,
                time: r.time,
            };
            lemma_hit_v_bounds(&*t.object, offset_r, itv);
        },
        Hittable::YRotate(rot) => {
            let rr = Ray {
                orig: super::rot_in_v(r.orig, rot.sin_theta as int, rot.cos_theta as int),
                dir: super::rot_in_v(r.dir, rot.sin_theta as int, rot.cos_theta as int),
                time: r.time,
            };
            lemma_hit_v_bounds(&*rot.object, rr, itv);
        },
        _ => {},
    }
}

/// Every hit a scan reports lies within the queried interval.
pub proof fn lemma_scan_bounds(s: Seq<Hittable>, r: Ray, itv: Interval)
    ensures
        hit_list_v(s, r, itv) matches Some(rec) ==> itv.min <= rec.t <= itv.max,
    decreases s,
{
    if s.len() > 0 {
        lemma_scan_bounds(s.drop_last(), r, itv);
        let prev = hit_list_v(s.drop_last(), r, itv);
        let last_itv = match prev {
            Some(rec) => Interval { min: itv.min, max: rec.t },
            None => itv,
        };
        lemma_hit_v_bounds(&s[s.len() - 1], r, last_itv);
        assert(s[s.len() - 1] == s.last());
    }
}

/// How narrowing the upper bound of the query interval relates two results
/// of the same primitive, at the level of the returned parameter: a hit
/// found after narrowing proves a hit at most as far before it, and a hit
/// strictly below the new bound survives the narrowing.
pub open spec fn narrow_rel(full: Option<HitRecord>, nar: Option<HitRecord>, b: i64) -> bool {
    &&& (nar is Some ==> full is Some && full->Some_0.t <= nar->Some_0.t)
    &&& (full is Some && full->Some_0.t < b ==> nar is Some && nar->Some_0.t
        <= full->Some_0.t)
}

/// The same relation over bare optional parameters.
pub open spec fn narrow_rel_t(full: Option<i64>, nar: Option<i64>, b: i64) -> bool {
    &&& (nar is Some ==> full is Some && full->Some_0 <= nar->Some_0)
    &&& (full is Some && full->Some_0 < b ==> nar is Some && nar->Some_0 <= full->Some_0)
}

/// Narrowing the interval of a box-free primitive loses only hits at or
/// beyond the new bound.
pub proof fn lemma_hit_narrow(h: &Hittable, r: Ray, itv: Interval, b: i64)
    requires
        boxless(*h),
        itv.min <= b <= itv.max,
    ensures
        narrow_rel(hit_v(*h, r, itv), hit_v(*h, r, Interval { min: itv.min, max: b }), b),
    decreases *h,
{
    let nitv = Interval { min: itv.min, max: b };
    match h {
        Hittable::Sphere(s) => {
            let center = super::sphere::sphere_center_v(*s, r.time as int);
            let oc = crate::vec3::vec_sub_v(center, r.orig);
            let a = vec_dot_v(r.dir, r.dir);
            let hh = vec_dot_v(r.dir, oc);
            let c = crate::fixed::fx_sub_v(
                vec_dot_v(oc, oc),
                fx_mul_v(s.radius as int, s.radius as int),
            );
            let disc = crate::fixed::fx_sub_v(fx_mul_v(hh, hh), fx_mul_v(a, c));
            if disc >= 0 {
                let sq = crate::fmath::fx_sqrt_v(disc);
                let root1 = fx_div_v(crate::fixed::fx_sub_v(hh, sq), a);
                let root2 = fx_div_v(fx_add_v(hh, sq), a);
                lemma_dot_self_nonneg(r.dir);
                assert(sq >= 0);
                lemma_fx_div_mono(
                    crate::fixed::fx_sub_v(hh, sq),
                    fx_add_v(hh, sq),
                    a,
                );
                assert(root1 <= root2);
            }
        },
        Hittable::Quad(_) => {},
        Hittable::ConstantMedium(_) => {},
        Hittable::HittableList(l) => {
            lemma_scan_char(l.objects@, r, itv);
            lemma_scan_char(l.objects@, r, nitv);
            lemma_best_t_narrow(l.objects@, r, itv, b);
        },
        Hittable::BvhNode(_) => {},
        Hittable::Translate(t) => {
            let offset_r = Ray {
                orig: crate::vec3::vec_sub_v(r.orig, t.offset),
                dir: r.dir,
                time: r.time,
            };
            lemma_hit_narrow(&*t.object, offset_r, itv, b);
        },
        Hittable::YRotate(rot) => {
            let rr = Ray {
                orig: super::rot_in_v(r.orig, rot.sin_theta as int, rot.cos_theta as int),
                dir: super::rot_in_v(r.dir, rot.sin_theta as int, rot.cos_theta as int),
                time: r.time,
            };
            lemma_hit_narrow(&*rot.object, rr, itv, b);
        },
    }
}

/// Narrowing relates the least full-interval parameters of a box-free
/// sequence the same way it relates one primitive's results.
pub proof fn lemma_best_t_narrow(s: Seq<Hittable>, r: Ray, itv: Interval, b: i64)
    requires
        boxless_seq(s),
        itv.min <= b <= itv.max,
    ensures
        narrow_rel_t(
            best_t(s, r, itv),
            best_t(s, r, Interval { min: itv.min, max: b }),
            b,
        ),
    decreases s,
{
    let nitv = Interval { min: itv.min, max: b };
    if s.len() > 0 {
        lemma_best_t_narrow(s.drop_last(), r, itv, b);
        lemma_hit_narrow(&s[s.len() - 1], r, itv, b);
        assert(s[s.len() - 1] == s.last());
        let fprev = best_t(s.drop_last(), r, itv);
        let nprev = best_t(s.drop_last(), r, nitv);
        let fcur = opt_t(hit_v(s.last(), r, itv));
        let ncur = opt_t(hit_v(s.last(), r, nitv));
        assert(best_t(s, r, itv) == opt_min(fprev, fcur));
        assert(best_t(s, r, nitv) == opt_min(nprev, ncur));
    }
}

/// The linear scan computes exactly the least full-interval parameter of its
/// box-free primitives: narrowing as it walks discards nothing nearer.
pub proof fn lemma_scan_char(s: Seq<Hittable>, r: Ray, itv: Interval)
    requires
        boxless_seq(s),
    ensures
        opt_t(hit_list_v(s, r, itv)) == best_t(s, r, itv),
    decreases s,
{
    if s.len() > 0 {
        lemma_scan_char(s.drop_last(), r, itv);
        lemma_scan_bounds(s.drop_last(), r, itv);
        let prev = hit_list_v(s.drop_last(), r, itv);
        let window = match prev {
            Some(rec) => Interval { min: itv.min, max: rec.t },
            None => itv,
        };
        assert(s[s.len() - 1] == s.last());
        lemma_hit_v_bounds(&s[s.len() - 1], r, window);
        lemma_hit_v_bounds(&s[s.len() - 1], r, itv);
        if prev is Some {
            lemma_hit_narrow(&s[s.len() - 1], r, itv, prev->Some_0.t);
        }
    }
}

/// The least parameter over a sequence splits at any removed position.
#[verifier::rlimit(100)]
#[verifier::spinoff_prover]
proof fn lemma_best_t_remove(s: Seq<Hittable>, j: int, r: Ray, itv: Interval)
    requires
        0 <= j < s.len(),
    ensures
        best_t(s, r, itv) == opt_min(
            best_t(s.remove(j), r, itv),
            opt_t(hit_v(s[j], r, itv)),
        ),
    decreases s,
{
    if j == s.len() - 1 {
        assert(s.remove(j) =~= s.drop_last());
    } else {
        lemma_best_t_remove(s.drop_last(), j, r, itv);
        assert(s.remove(j).drop_last() =~= s.drop_last().remove(j));
        assert(s.remove(j).last() == s.last());
        assert(s.drop_last()[j] == s[j]);
        let a = best_t(s.drop_last().remove(j), r, itv);
        let tj = opt_t(hit_v(s[j], r, itv));
        let tl = opt_t(hit_v(s.last(), r, itv));
        assert(opt_min(opt_min(a, tj), tl) == opt_min(opt_min(a, tl), tj));
    }
}

/// The least full-interval parameter does not depend on the order of the
/// primitives: it is a property of the multiset alone.
#[verifier::rlimit(100)]
#[verifier::spinoff_prover]
pub proof fn lemma_best_t_permutation(s1: Seq<Hittable>, s2: Seq<Hittable>, r: Ray, itv: Interval)
    requires
        s1.to_multiset() == s2.to_multiset(),
    ensures
        best_t(s1, r, itv) == best_t(s2, r, itv),
    decreases s1.len(),
{
    s1.to_multiset_ensures();
    s2.to_multiset_ensures();
    if s1.len() == 0 {
        assert(s2.len() == 0);
    } else {
        let x = s1.last();
        assert(s1.contains(x));
        assert(s1.to_multiset().count(x) > 0);
        assert(s2.contains(x));
        let j = choose|j: int| 0 <= j < s2.len() && s2[j] == x;
        lemma_best_t_remove(s2, j, r, itv);
        assert(s1 =~= s1.drop_last().push(x));
        s1.drop_last().to_multiset_ensures();
        assert(s1.to_multiset() =~= s1.drop_last().to_multiset().insert(x));
        assert(s2.remove(j).to_multiset() =~= s2.to_multiset().remove(x));
        assert(s1.drop_last().to_multiset() =~= s2.remove(j).to_multiset());
        lemma_best_t_permutation(s1.drop_last(), s2.remove(j), r, itv);
    }
}

/// The complete nearest-hit law of the hierarchy: a tree whose leaves are a
/// reordering of a set of box-free primitives, and whose boxes cull
/// completely for a ray, yields on every interval a hit at exactly the
/// parameter the brute-force linear scan over those primitives finds.
pub proof fn lemma_bvh_matches_brute_force(
    tree: &Hittable,
    objects: Seq<Hittable>,
    r: Ray,
    itv: Interval,
)
    requires
        super::cull_complete(*tree, r),
        super::leaves_v(*tree).to_multiset() == objects.to_multiset(),
        boxless_seq(objects),
    ensures
        opt_t(hit_v(*tree, r, itv)) == opt_t(hit_list_v(objects, r, itv)),
{
    let leaves = super::leaves_v(*tree);
    super::lemma_bvh_hit_equals_linear_scan(*tree, r, itv);
    lemma_boxless_seq_char(objects);
    leaves.to_multiset_ensures();
    objects.to_multiset_ensures();
    assert forall|i: int| 0 <= i < leaves.len() implies boxless(#[trigger] leaves[i]) by {
        assert(leaves.contains(leaves[i]));
        assert(leaves.to_multiset().count(leaves[i]) > 0);
        assert(objects.contains(leaves[i]));
        let j = choose|j: int| 0 <= j < objects.len() && objects[j] == leaves[i];
        assert(boxless(objects[j]));
    }
    lemma_boxless_seq_char(leaves);
    lemma_scan_char(leaves, r, itv);
    lemma_scan_char(objects, r, itv);
    lemma_best_t_permutation(leaves, objects, r, itv);
}

/// Squares are non-negative under the fixed-point product.
proof fn lemma_fx_square_nonneg(x: int)
    ensures
        fx_mul_v(x, x) >= 0,
{
    assert(x * x >= 0) by (nonlinear_arith);
    vstd::arithmetic::div_mod::lemma_div_is_ordered(0, x * x, FX_ONE as int);
}

/// A vector's dot product with itself is non-negative.
proof fn lemma_dot_self_nonneg(v: Vec3)
    ensures
        vec_dot_v(v, v) >= 0,
{
    lemma_fx_square_nonneg(v.x as int);
    lemma_fx_square_nonneg(v.y as int);
    lemma_fx_square_nonneg(v.z as int);
}

/// Fixed-point division is monotone in the numerator for a non-negative
/// denominator.
proof fn lemma_fx_div_mono(x1: int, x2: int, d: int)
    requires
        x1 <= x2,
        d >= 0,
    ensures
        fx_div_v(x1, d) <= fx_div_v(x2, d),
{
    if d == 0 {
        if x1 >= 0 {
        }
    } else {
        let one = FX_ONE as int;
        let y1 = x1 * one;
        let y2 = x2 * one;
        vstd::arithmetic::mul::lemma_mul_inequality(x1, x2, one);
        lemma_trunc_div_mono(y1, y2, d);
    }
}

/// Truncating division toward zero is monotone in the dividend for a
/// positive divisor.
proof fn lemma_trunc_div_mono(y1: int, y2: int, d: int)
    requires
        y1 <= y2,
        d > 0,
    ensures
        crate::fixed::div_trunc(y1, d) <= crate::fixed::div_trunc(y2, d),
{
    if y1 >= 0 {
        vstd::arithmetic::div_mod::lemma_div_is_ordered(y1, y2, d);
        vstd::arithmetic::div_mod::lemma_div_is_ordered(0, y1, d);
    } else if y2 < 0 {
        vstd::arithmetic::div_mod::lemma_div_is_ordered(-y2, -y1, d);
        vstd::arithmetic::div_mod::lemma_div_is_ordered(0, -y2, d);
    } else {
        vstd::arithmetic::div_mod::lemma_div_is_ordered(0, y2, d);
        vstd::arithmetic::div_mod::lemma_div_is_ordered(0, -y1, d);
    }
}

} // verus!
