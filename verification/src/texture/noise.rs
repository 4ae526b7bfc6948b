//! The procedural noise textures: plain noise, turbulence, and marble.

use vstd::prelude::*;
use std::sync::Arc;
use super::perlin::{perlin_wf, PerlinNoise};

verus! {

/// Smoothed gradient noise scaled in space.
#[derive(Clone, Debug)]
pub struct Noise {
    pub noise: Arc<PerlinNoise>,
    pub scale: i64,
}

impl Noise {
    /// A noise texture with fresh tables at the given spatial scale.
    pub fn new(scale: i64) -> (r: Self)
        ensures
            perlin_wf(*r.noise),
            r.scale == scale,
    {
        Noise { noise: Arc::new(PerlinNoise::new()), scale }
    }
}

/// Turbulence: summed octaves of noise.
#[derive(Clone, Debug)]
pub struct TurbNoise {
    pub noise: Arc<PerlinNoise>,
    pub scale: i64,
    pub depth: u32,
}

impl TurbNoise {
    /// A turbulence texture with fresh tables.
    pub fn new(scale: i64, depth: u32) -> (r: Self)
        ensures
            perlin_wf(*r.noise),
            r.scale == scale,
            r.depth == depth,
    {
        TurbNoise { noise: Arc::new(PerlinNoise::new()), scale, depth }
    }
}

/// Marble: a sine wave along one axis, phase-shifted by turbulence.
#[derive(Clone, Debug)]
pub struct MarbleNoise {
    pub noise: Arc<PerlinNoise>,
    pub scale: i64,
    pub depth: u32,
}

impl MarbleNoise {
    /// A marble texture with fresh tables.
    pub fn new(scale: i64, depth: u32) -> (r: Self)
        ensures
            perlin_wf(*r.noise),
            r.scale == scale,
            r.depth == depth,
    {
        MarbleNoise { noise: Arc::new(PerlinNoise::new()), scale, depth }
    }
}

} // verus!
