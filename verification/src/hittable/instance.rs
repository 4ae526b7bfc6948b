//! Instancing wrappers: translate a primitive, or rotate it about the y
//! axis. The wrapped object is shared, the ray is transformed into object
//! space, and hit results are transformed back.

use vstd::prelude::*;
use std::sync::Arc;
use crate::fixed::{fx_add_v, fx_div, fx_div_v, fx_from_int, fx_mul, fx_mul_v, fx_sub_v, FX_ONE};
use crate::fmath::{fx_cos, fx_cos_v, fx_sin, fx_sin_v, FX_PI};
use crate::vec3::{Point3, Vec3};
use super::aabb::{from_points_v, Aabb};
use super::{bounding_box_v, hittable_wf, Hittable};

verus! {

pub struct Translate {
    pub object: Arc<Hittable>,
    pub offset: Vec3,
    pub bbox: Aabb,
}

impl Translate {
    /// The object shifted by `offset`.
    pub fn new(object: Hittable, offset: Vec3) -> (r: Self)
        ensures
            *r.object == object,
            r.offset == offset,
            r.bbox == translated_box_v(bounding_box_v(object), offset),
    {
        let bbox = object.bounding_box().translate(offset);
        Translate { object: Arc::new(object), offset, bbox }
    }

    /// The shared object shifted by `offset`.
    pub fn from_arc(object: Arc<Hittable>, offset: Vec3) -> (r: Self)
        ensures
            r.object == object,
            r.offset == offset,
            r.bbox == translated_box_v(bounding_box_v(*object), offset),
    {
        let bbox = object.bounding_box().translate(offset);
        Translate { object, offset, bbox }
    }
}

/// A box shifted by an offset, re-padded.
pub open spec fn translated_box_v(b: Aabb, offset: Vec3) -> Aabb {
    Aabb {
        x: super::aabb::pad_interval_v(super::aabb::shift_interval_v(b.x, offset.x as int)),
        y: super::aabb::pad_interval_v(super::aabb::shift_interval_v(b.y, offset.y as int)),
        z: super::aabb::pad_interval_v(super::aabb::shift_interval_v(b.z, offset.z as int)),
    }
}

pub struct YRotate {
    pub object: Arc<Hittable>,
    pub sin_theta: i64,
    pub cos_theta: i64,
    pub bbox: Aabb,
}

/// Degrees to fixed-point radians.
pub open spec fn radians_v(angle: int) -> int {
    fx_div_v(fx_mul_v(angle, FX_PI as int), crate::fixed::sat(180 * (FX_ONE as int)))
}

/// One corner of a box, rotated about the y axis into world space.
pub open spec fn rotated_corner_v(b: Aabb, sin_theta: int, cos_theta: int, i: int, j: int, k: int) -> Vec3 {
    let x = if i == 1 {
        b.x.max
    } else {
        b.x.min
    };
    let y = if j == 1 {
        b.y.max
    } else {
        b.y.min
    };
    let z = if k == 1 {
        b.z.max
    } else {
        b.z.min
    };
    Vec3 {
        x: fx_add_v(fx_mul_v(cos_theta, x as int), fx_mul_v(sin_theta, z as int)) as i64,
        y,
        z: fx_sub_v(fx_mul_v(cos_theta, z as int), fx_mul_v(sin_theta, x as int)) as i64,
    }
}

/// The smaller of two scalars.
pub open spec fn imin_v(a: int, b: int) -> int {
    if a <= b {
        a
    } else {
        b
    }
}

/// The larger of two scalars.
pub open spec fn imax_v(a: int, b: int) -> int {
    if a >= b {
        a
    } else {
        b
    }
}

/// The padded world-space box around all eight rotated corners of an
/// object-space box.
pub open spec fn rotated_box_v(b: Aabb, sin_theta: int, cos_theta: int) -> Aabb {
    let c0 = rotated_corner_v(b, sin_theta, cos_theta, 0, 0, 0);
    let c1 = rotated_corner_v(b, sin_theta, cos_theta, 0, 0, 1);
    let c2 = rotated_corner_v(b, sin_theta, cos_theta, 0, 1, 0);
    let c3 = rotated_corner_v(b, sin_theta, cos_theta, 0, 1, 1);
    let c4 = rotated_corner_v(b, sin_theta, cos_theta, 1, 0, 0);
    let c5 = rotated_corner_v(b, sin_theta, cos_theta, 1, 0, 1);
    let c6 = rotated_corner_v(b, sin_theta, cos_theta, 1, 1, 0);
    let c7 = rotated_corner_v(b, sin_theta, cos_theta, 1, 1, 1);
    let minp = Vec3 {
        x: imin_v(
            imin_v(imin_v(c0.x as int, c1.x as int), imin_v(c2.x as int, c3.x as int)),
            imin_v(imin_v(c4.x as int, c5.x as int), imin_v(c6.x as int, c7.x as int)),
        ) as i64,
        y: imin_v(
            imin_v(imin_v(c0.y as int, c1.y as int), imin_v(c2.y as int, c3.y as int)),
            imin_v(imin_v(c4.y as int, c5.y as int), imin_v(c6.y as int, c7.y as int)),
        ) as i64,
        z: imin_v(
            imin_v(imin_v(c0.z as int, c1.z as int), imin_v(c2.z as int, c3.z as int)),
            imin_v(imin_v(c4.z as int, c5.z as int), imin_v(c6.z as int, c7.z as int)),
        ) as i64,
    };
    let maxp = Vec3 {
        x: imax_v(
            imax_v(imax_v(c0.x as int, c1.x as int), imax_v(c2.x as int, c3.x as int)),
            imax_v(imax_v(c4.x as int, c5.x as int), imax_v(c6.x as int, c7.x as int)),
        ) as i64,
        y: imax_v(
            imax_v(imax_v(c0.y as int, c1.y as int), imax_v(c2.y as int, c3.y as int)),
            imax_v(imax_v(c4.y as int, c5.y as int), imax_v(c6.y as int, c7.y as int)),
        ) as i64,
        z: imax_v(
            imax_v(imax_v(c0.z as int, c1.z as int), imax_v(c2.z as int, c3.z as int)),
            imax_v(imax_v(c4.z as int, c5.z as int), imax_v(c6.z as int, c7.z as int)),
        ) as i64,
    };
    from_points_v(minp, maxp)
}

impl YRotate {
    /// The object rotated about the y axis by an angle in fixed-point
    /// degrees.
    pub fn new(object: Hittable, angle: i64) -> (r: Self)
        ensures
            *r.object == object,
            r.sin_theta == fx_sin_v(radians_v(angle as int)),
            r.cos_theta == fx_cos_v(radians_v(angle as int)),
            r.bbox == rotated_box_v(
                bounding_box_v(object),
                r.sin_theta as int,
                r.cos_theta as int,
            ),
    {
        YRotate::from_arc(Arc::new(object), angle)
    }

    /// The shared object rotated about the y axis by an angle in fixed-point
    /// degrees.
    pub fn from_arc(object: Arc<Hittable>, angle: i64) -> (r: Self)
        ensures
            r.object == object,
            r.sin_theta == fx_sin_v(radians_v(angle as int)),
            r.cos_theta == fx_cos_v(radians_v(angle as int)),
            r.bbox == rotated_box_v(
                bounding_box_v(*object),
                r.sin_theta as int,
                r.cos_theta as int,
            ),
    {
        let radians = fx_div(fx_mul(angle, FX_PI), fx_from_int(180));
        let sin_theta = fx_sin(radians);
        let cos_theta = fx_cos(radians);
        let b = object.bounding_box();
        let c0 = rotated_corner(b, sin_theta, cos_theta, false, false, false);
        let c1 = rotated_corner(b, sin_theta, cos_theta, false, false, true);
        let c2 = rotated_corner(b, sin_theta, cos_theta, false, true, false);
        let c3 = rotated_corner(b, sin_theta, cos_theta, false, true, true);
        let c4 = rotated_corner(b, sin_theta, cos_theta, true, false, false);
        let c5 = rotated_corner(b, sin_theta, cos_theta, true, false, true);
        let c6 = rotated_corner(b, sin_theta, cos_theta, true, true, false);
        let c7 = rotated_corner(b, sin_theta, cos_theta, true, true, true);
        let minp = Vec3::new(
            min8(c0.x, c1.x, c2.x, c3.x, c4.x, c5.x, c6.x, c7.x),
            min8(c0.y, c1.y, c2.y, c3.y, c4.y, c5.y, c6.y, c7.y),
            min8(c0.z, c1.z, c2.z, c3.z, c4.z, c5.z, c6.z, c7.z),
        );
        let maxp = Vec3::new(
            max8(c0.x, c1.x, c2.x, c3.x, c4.x, c5.x, c6.x, c7.x),
            max8(c0.y, c1.y, c2.y, c3.y, c4.y, c5.y, c6.y, c7.y),
            max8(c0.z, c1.z, c2.z, c3.z, c4.z, c5.z, c6.z, c7.z),
        );
        let bbox = Aabb::from_points(minp, maxp);
        YRotate { object, sin_theta, cos_theta, bbox }
    }
}

/// One rotated corner of a box.
fn rotated_corner(b: Aabb, sin_theta: i64, cos_theta: i64, i: bool, j: bool, k: bool) -> (r: Vec3)
    ensures
        r == rotated_corner_v(
            b,
            sin_theta as int,
            cos_theta as int,
            if i {
                1int
            } else {
                0int
            },
            if j {
                1int
            } else {
                0int
            },
            if k {
                1int
            } else {
                0int
            },
        ),
{
    let x = if i {
        b.x.max
    } else {
        b.x.min
    };
    let y = if j {
        b.y.max
    } else {
        b.y.min
    };
    let z = if k {
        b.z.max
    } else {
        b.z.min
    };
    Vec3 {
        x: crate::fixed::fx_add(fx_mul(cos_theta, x), fx_mul(sin_theta, z)),
        y,
        z: crate::fixed::fx_sub(fx_mul(cos_theta, z), fx_mul(sin_theta, x)),
    }
}

fn min8(a: i64, b: i64, c: i64, d: i64, e: i64, f: i64, g: i64, h: i64) -> (r: i64)
    ensures
        r as int == imin_v(
            imin_v(imin_v(a as int, b as int), imin_v(c as int, d as int)),
            imin_v(imin_v(e as int, f as int), imin_v(g as int, h as int)),
        ),
{
    let m1 = crate::fixed::fx_min(crate::fixed::fx_min(a, b), crate::fixed::fx_min(c, d));
    let m2 = crate::fixed::fx_min(crate::fixed::fx_min(e, f), crate::fixed::fx_min(g, h));
    crate::fixed::fx_min(m1, m2)
}

fn max8(a: i64, b: i64, c: i64, d: i64, e: i64, f: i64, g: i64, h: i64) -> (r: i64)
    ensures
        r as int == imax_v(
            imax_v(imax_v(a as int, b as int), imax_v(c as int, d as int)),
            imax_v(imax_v(e as int, f as int), imax_v(g as int, h as int)),
        ),
{
    let m1 = crate::fixed::fx_max(crate::fixed::fx_max(a, b), crate::fixed::fx_max(c, d));
    let m2 = crate::fixed::fx_max(crate::fixed::fx_max(e, f), crate::fixed::fx_max(g, h));
    crate::fixed::fx_max(m1, m2)
}

} // verus!
