//! Rays: an origin, a direction, and a time of cast for motion blur.

use vstd::prelude::*;
use crate::vec3::{vec_add_v, vec_scale_v, Point3, Vec3};

verus! {

#[derive(Clone, Copy, PartialEq, Eq, Structural, Debug)]
pub struct Ray {
    pub orig: Point3,
    pub dir: Vec3,
    pub time: i64,
}

/// The point reached after parameter `t` along the ray.
pub open spec fn ray_at_v(r: Ray, t: int) -> Point3 {
    vec_add_v(r.orig, vec_scale_v(r.dir, t))
}

impl Ray {
    /// A ray cast at time zero.
    pub fn new(origin: Point3, direction: Vec3) -> (r: Self)
        ensures
            r == (Ray { orig: origin, dir: direction, time: 0i64 }),
    {
        Ray { orig: origin, dir: direction, time: 0 }
    }

    /// A ray cast at the given time.
    pub fn with_time(origin: Point3, direction: Vec3, time: i64) -> (r: Self)
        ensures
            r == (Ray { orig: origin, dir: direction, time }),
    {
        Ray { orig: origin, dir: direction, time }
    }

    /// The point reached after parameter `t`.
    pub fn at(&self, t: i64) -> (r: Point3)
        ensures
            r == ray_at_v(*self, t as int),
    {
        self.orig.add(self.dir.scale(t))
    }

    /// The origin of the ray.
    pub fn origin(&self) -> (r: &Point3)
        ensures
            r == self.orig,
    {
        &self.orig
    }

    /// The direction of the ray.
    pub fn direction(&self) -> (r: &Vec3)
        ensures
            r == self.dir,
    {
        &self.dir
    }

    /// The time the ray was cast.
    pub fn time(&self) -> (r: i64)
        ensures
            r == self.time,
    {
        self.time
    }
}

} // verus!
