//! Axis-aligned bounding boxes and the slab intersection test.

use vstd::prelude::*;
use crate::fixed::{fx_div_v, fx_sub_v, FX_HUGE};
use crate::interval::{from_intervals, Interval};
use crate::ray::Ray;
use crate::vec3::{Point3, Vec3};

verus! {

/// Boxes whose extent along an axis falls below this are padded, so that a
/// flat primitive still has a usable box for the slab test.
pub const FX_PAD_DELTA: i64 = 8;

/// An axis-aligned box: one closed interval per axis.
#[derive(Clone, Copy, PartialEq, Eq, Structural, Debug)]
pub struct Aabb {
    pub x: Interval,
    pub y: Interval,
    pub z: Interval,
}

/// An interval padded up to the minimum extent.
pub open spec fn pad_interval_v(i: Interval) -> Interval {
    if fx_sub_v(i.max as int, i.min as int) < FX_PAD_DELTA {
        Interval {
            min: fx_sub_v(i.min as int, (FX_PAD_DELTA / 2) as int) as i64,
            max: crate::fixed::fx_add_v(i.max as int, (FX_PAD_DELTA / 2) as int) as i64,
        }
    } else {
        i
    }
}

/// One axis of the slab test: the entry and exit parameters of the ray
/// against the two planes, intersected with the running interval.
pub open spec fn slab_axis_v(axi: Interval, orig: i64, dir: i64, lo: int, hi: int) -> (int, int) {
    let t0 = fx_div_v(fx_sub_v(axi.min as int, orig as int), dir as int);
    let t1 = fx_div_v(fx_sub_v(axi.max as int, orig as int), dir as int);
    if t0 < t1 {
        ((if t0 > lo {
            t0
        } else {
            lo
        }), (if t1 < hi {
            t1
        } else {
            hi
        }))
    } else {
        ((if t1 > lo {
            t1
        } else {
            lo
        }), (if t0 < hi {
            t0
        } else {
            hi
        }))
    }
}

/// The ray interval narrowed by all three slabs, with no early exit.
pub open spec fn slab_narrowed_v(b: Aabb, r: Ray, itv: Interval) -> (int, int) {
    let p0 = slab_axis_v(b.x, r.orig.x, r.dir.x, itv.min as int, itv.max as int);
    let p1 = slab_axis_v(b.y, r.orig.y, r.dir.y, p0.0, p0.1);
    slab_axis_v(b.z, r.orig.z, r.dir.z, p1.0, p1.1)
}

/// The slab test as the traversal runs it: narrow axis by axis and reject as
/// soon as the interval becomes empty.
pub open spec fn aabb_hit_v(b: Aabb, r: Ray, itv: Interval) -> bool {
    let p0 = slab_axis_v(b.x, r.orig.x, r.dir.x, itv.min as int, itv.max as int);
    if p0.1 <= p0.0 {
        false
    } else {
        let p1 = slab_axis_v(b.y, r.orig.y, r.dir.y, p0.0, p0.1);
        if p1.1 <= p1.0 {
            false
        } else {
            let p2 = slab_axis_v(b.z, r.orig.z, r.dir.z, p1.0, p1.1);
            p2.0 < p2.1
        }
    }
}

/// The slab test succeeds exactly when the interval narrowed by all three
/// axes is nonempty: the early exits of the running test discard only rays
/// whose narrowed interval could never become nonempty again.
pub proof fn lemma_aabb_hit_iff_narrowed_nonempty(b: Aabb, r: Ray, itv: Interval)
    ensures
        aabb_hit_v(b, r, itv) <==> {
            let f = slab_narrowed_v(b, r, itv);
            f.0 < f.1
        },
{
    let p0 = slab_axis_v(b.x, r.orig.x, r.dir.x, itv.min as int, itv.max as int);
    let p1 = slab_axis_v(b.y, r.orig.y, r.dir.y, p0.0, p0.1);
    let p2 = slab_axis_v(b.z, r.orig.z, r.dir.z, p1.0, p1.1);
    assert(p1.0 >= p0.0 && p1.1 <= p0.1);
    assert(p2.0 >= p1.0 && p2.1 <= p1.1);
}

impl Aabb {
    /// The box with the given axis intervals, each padded up to the minimum
    /// extent.
    pub fn new(x: Interval, y: Interval, z: Interval) -> (r: Self)
        ensures
            r.x == pad_interval_v(x),
            r.y == pad_interval_v(y),
            r.z == pad_interval_v(z),
    {
        Aabb { x: pad_interval(x), y: pad_interval(y), z: pad_interval(z) }
    }

    /// The empty box, which no ray hits.
    pub fn empty() -> (r: Self)
        ensures
            r == empty_box_v(),
    {
        let e = Interval::empty();
        let p = pad_interval(e);
        Aabb { x: p, y: p, z: p }
    }

    /// The padded box spanning the two points as opposite corners.
    pub fn from_points(a: Point3, b: Point3) -> (r: Self)
        ensures
            r == from_points_v(a, b),
    {
        let x = if a.x <= b.x {
            Interval { min: a.x, max: b.x }
        } else {
            Interval { min: b.x, max: a.x }
        };
        let y = if a.y <= b.y {
            Interval { min: a.y, max: b.y }
        } else {
            Interval { min: b.y, max: a.y }
        };
        let z = if a.z <= b.z {
            Interval { min: a.z, max: b.z }
        } else {
            Interval { min: b.z, max: a.z }
        };
        Aabb::new(x, y, z)
    }

    /// The smallest box containing both boxes; no padding is applied.
    pub fn from_boxes(box0: &Self, box1: &Self) -> (r: Self)
        ensures
            r == box_union_v(*box0, *box1),
            r.x.min == if box0.x.min <= box1.x.min {
                box0.x.min
            } else {
                box1.x.min
            },
            r.x.max == if box0.x.max >= box1.x.max {
                box0.x.max
            } else {
                box1.x.max
            },
            r.y.min == if box0.y.min <= box1.y.min {
                box0.y.min
            } else {
                box1.y.min
            },
            r.y.max == if box0.y.max >= box1.y.max {
                box0.y.max
            } else {
                box1.y.max
            },
            r.z.min == if box0.z.min <= box1.z.min {
                box0.z.min
            } else {
                box1.z.min
            },
            r.z.max == if box0.z.max >= box1.z.max {
                box0.z.max
            } else {
                box1.z.max
            },
    {
        Aabb {
            x: from_intervals(&box0.x, &box1.x),
            y: from_intervals(&box0.y, &box1.y),
            z: from_intervals(&box0.z, &box1.z),
        }
    }

    /// The interval of the given axis: `0` is x, `1` is y, `2` is z.
    pub fn index(&self, index: usize) -> (r: &Interval)
        requires
            index < 3,
        ensures
            *r == axis_interval_of(*self, index as int),
    {
        if index == 0 {
            &self.x
        } else if index == 1 {
            &self.y
        } else {
            &self.z
        }
    }

    /// The slab test: whether the ray crosses the box somewhere strictly
    /// inside `ray_t`.
    pub fn hit(&self, r: Ray, ray_t: Interval) -> (res: bool)
        ensures
            res == aabb_hit_v(*self, r, ray_t),
    {
        let o = *r.origin();
        let d = *r.direction();
        let p0 = slab_axis(self.x, o.x, d.x, ray_t.min, ray_t.max);
        if p0.1 <= p0.0 {
            return false;
        }
        let p1 = slab_axis(self.y, o.y, d.y, p0.0, p0.1);
        if p1.1 <= p1.0 {
            return false;
        }
        let p2 = slab_axis(self.z, o.z, d.z, p1.0, p1.1);
        p2.0 < p2.1
    }

    /// The axis along which the box is widest.
    pub fn longest_axis(&self) -> (r: usize)
        ensures
            r == longest_axis_v(*self),
    {
        let sx = self.x.size();
        let sy = self.y.size();
        let sz = self.z.size();
        if sx > sy {
            if sx > sz {
                0
            } else {
                2
            }
        } else {
            if sy > sz {
                1
            } else {
                2
            }
        }
    }

    /// The box shifted by an offset, re-padded.
    pub fn translate(&self, offset: Vec3) -> (r: Self)
        ensures
            r.x == pad_interval_v(shift_interval_v(self.x, offset.x as int)),
            r.y == pad_interval_v(shift_interval_v(self.y, offset.y as int)),
            r.z == pad_interval_v(shift_interval_v(self.z, offset.z as int)),
    {
        Aabb::new(
            shift_interval(self.x, offset.x),
            shift_interval(self.y, offset.y),
            shift_interval(self.z, offset.z),
        )
    }
}

/// The empty box: reversed intervals that fail every slab test, padded as
/// every constructed box is.
pub open spec fn empty_box_v() -> Aabb {
    let e = pad_interval_v(Interval { min: FX_HUGE, max: (-FX_HUGE) as i64 });
    Aabb { x: e, y: e, z: e }
}

/// The padded box spanning two points as opposite corners.
pub open spec fn from_points_v(a: Point3, b: Point3) -> Aabb {
    Aabb {
        x: pad_interval_v(min_max_interval(a.x, b.x)),
        y: pad_interval_v(min_max_interval(a.y, b.y)),
        z: pad_interval_v(min_max_interval(a.z, b.z)),
    }
}

/// The smallest interval containing two intervals.
pub open spec fn interval_union_v(a: Interval, b: Interval) -> Interval {
    Interval {
        min: if a.min <= b.min {
            a.min
        } else {
            b.min
        },
        max: if a.max >= b.max {
            a.max
        } else {
            b.max
        },
    }
}

/// The smallest box containing two boxes.
pub open spec fn box_union_v(a: Aabb, b: Aabb) -> Aabb {
    Aabb {
        x: interval_union_v(a.x, b.x),
        y: interval_union_v(a.y, b.y),
        z: interval_union_v(a.z, b.z),
    }
}

/// Whether the first box contains the second: every axis interval of the
/// inner box lies within the outer one's.
pub open spec fn box_contains_v(outer: Aabb, inner: Aabb) -> bool {
    &&& outer.x.min <= inner.x.min && inner.x.max <= outer.x.max
    &&& outer.y.min <= inner.y.min && inner.y.max <= outer.y.max
    &&& outer.z.min <= inner.z.min && inner.z.max <= outer.z.max
}

/// The axis interval of a box by index, in spec contexts.
pub open spec fn axis_interval_of(b: Aabb, index: int) -> Interval {
    if index == 0 {
        b.x
    } else if index == 1 {
        b.y
    } else {
        b.z
    }
}

/// The widest axis, in spec contexts.
pub open spec fn longest_axis_v(b: Aabb) -> usize {
    let sx = fx_sub_v(b.x.max as int, b.x.min as int);
    let sy = fx_sub_v(b.y.max as int, b.y.min as int);
    let sz = fx_sub_v(b.z.max as int, b.z.min as int);
    if sx > sy {
        if sx > sz {
            0usize
        } else {
            2usize
        }
    } else {
        if sy > sz {
            1usize
        } else {
            2usize
        }
    }
}

/// The interval spanning two scalars in either order.
pub open spec fn min_max_interval(a: i64, b: i64) -> Interval {
    if a <= b {
        Interval { min: a, max: b }
    } else {
        Interval { min: b, max: a }
    }
}

/// An interval shifted by an offset, saturating.
pub open spec fn shift_interval_v(i: Interval, d: int) -> Interval {
    Interval {
        min: crate::fixed::fx_add_v(i.min as int, d) as i64,
        max: crate::fixed::fx_add_v(i.max as int, d) as i64,
    }
}

fn shift_interval(i: Interval, d: i64) -> (r: Interval)
    ensures
        r == shift_interval_v(i, d as int),
{
    Interval { min: crate::fixed::fx_add(i.min, d), max: crate::fixed::fx_add(i.max, d) }
}

fn pad_interval(i: Interval) -> (r: Interval)
    ensures
        r == pad_interval_v(i),
{
    if i.size() < FX_PAD_DELTA {
        i.expand(FX_PAD_DELTA)
    } else {
        i
    }
}

fn slab_axis(axi: Interval, orig: i64, dir: i64, lo: i64, hi: i64) -> (r: (i64, i64))
    ensures
        (r.0 as int, r.1 as int) == slab_axis_v(axi, orig, dir, lo as int, hi as int),
{
    let t0 = crate::fixed::fx_div(crate::fixed::fx_sub(axi.min, orig), dir);
    let t1 = crate::fixed::fx_div(crate::fixed::fx_sub(axi.max, orig), dir);
    if t0 < t1 {
        (
            (if t0 > lo {
                t0
            } else {
                lo
            }),
            (if t1 < hi {
                t1
            } else {
                hi
            }),
        )
    } else {
        (
            (if t1 > lo {
                t1
            } else {
                lo
            }),
            (if t0 < hi {
                t0
            } else {
                hi
            }),
        )
    }
}

} // verus!
