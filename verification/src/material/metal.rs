//! The reflective material.

use vstd::prelude::*;
use crate::color::Color;

verus! {

pub struct Metal {
    pub albedo: Color,
    pub fuzz: i64,
}

impl Metal {
    /// A mirror-like material with the given tint and fuzz radius.
    pub fn new(albedo: Color, fuzz: i64) -> (r: Self)
        ensures
            r.albedo == albedo,
            r.fuzz == fuzz,
    {
        Metal { albedo, fuzz }
    }
}

} // verus!
