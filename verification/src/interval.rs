//! Closed fixed-point ranges over the ray parameter.

use vstd::prelude::*;
use crate::fixed::{fx_add, fx_add_v, fx_max, fx_min, fx_sub, fx_sub_v, FX_HUGE};

verus! {

/// A closed range `[min, max]` of fixed-point scalars. An interval with
/// `max <= min` is empty for the strict containment used by intersection.
#[derive(Clone, Copy, PartialEq, Eq, Structural, Debug)]
pub struct Interval {
    pub min: i64,
    pub max: i64,
}

impl Interval {
    /// The interval with the given endpoints.
    pub fn new(min: i64, max: i64) -> (r: Self)
        ensures
            r == (Interval { min, max }),
    {
        Interval { min, max }
    }

    /// The empty interval: every strict containment test fails.
    pub fn empty() -> (r: Self)
        ensures
            r == (Interval { min: FX_HUGE, max: (-FX_HUGE) as i64 }),
    {
        Interval { min: FX_HUGE, max: -FX_HUGE }
    }

    /// The interval holding every representable scalar.
    pub fn universe() -> (r: Self)
        ensures
            r == (Interval { min: (-FX_HUGE) as i64, max: FX_HUGE }),
    {
        Interval { min: -FX_HUGE, max: FX_HUGE }
    }

    /// Whether `x` lies strictly inside the interval.
    pub fn surrounds(&self, x: i64) -> (r: bool)
        ensures
            r == (self.min < x && x < self.max),
    {
        self.min < x && x < self.max
    }

    /// Whether `x` lies inside the interval, endpoints included.
    pub fn contains(&self, x: i64) -> (r: bool)
        ensures
            r == (self.min <= x && x <= self.max),
    {
        self.min <= x && x <= self.max
    }

    /// `x` clamped into the interval.
    pub fn clamp(&self, x: i64) -> (r: i64)
        ensures
            r == if x < self.min {
                self.min
            } else if x > self.max {
                self.max
            } else {
                x
            },
    {
        if x < self.min {
            self.min
        } else if x > self.max {
            self.max
        } else {
            x
        }
    }

    /// The length of the interval, saturated.
    pub fn size(&self) -> (r: i64)
        ensures
            r == fx_sub_v(self.max as int, self.min as int),
    {
        fx_sub(self.max, self.min)
    }

    /// The interval widened by `delta` in total, half on each side.
    pub fn expand(&self, delta: i64) -> (r: Self)
        requires
            delta >= 0,
        ensures
            r.min == fx_sub_v(self.min as int, delta as int / 2),
            r.max == fx_add_v(self.max as int, delta as int / 2),
    {
        let padding = ((delta as u64) / 2) as i64;
        Interval { min: fx_sub(self.min, padding), max: fx_add(self.max, padding) }
    }
}

/// The smallest interval containing both arguments.
pub fn from_intervals(a: &Interval, b: &Interval) -> (r: Interval)
    ensures
        r.min == if a.min <= b.min {
            a.min
        } else {
            b.min
        },
        r.max == if a.max >= b.max {
            a.max
        } else {
            b.max
        },
{
    Interval { min: fx_min(a.min, b.min), max: fx_max(a.max, b.max) }
}

} // verus!
