//! The library's single source of randomness.
//!
//! Everything stochastic in the renderer — pixel jitter, scatter directions,
//! the free-flight sampling of participating media — draws through the
//! functions here, which reduce raw random words to fixed-point ranges.

use vstd::prelude::*;
use crate::fixed::FX_ONE;

verus! {

/// Relies on rand::random: it returns a value of the type drawn from its
/// standard distribution. Nothing can be promised of the value itself.
pub assume_specification<T>[ rand::random::<T> ]() -> (r: T)
    where
        rand::distributions::Standard: rand::distributions::Distribution<T>,
;

/// A random scalar in `[0, FX_ONE)`: sixteen random fractional bits.
pub fn random_unit_fx() -> (r: i64)
    ensures
        0 <= r < FX_ONE,
{
    let x: u64 = rand::random::<u64>();
    (x % 65536) as i64
}

/// A random scalar in `(0, FX_ONE]`, for draws that must not be zero.
pub fn random_positive_unit_fx() -> (r: i64)
    ensures
        0 < r <= FX_ONE,
{
    random_unit_fx() + 1
}

/// A random scalar in `[-FX_ONE, FX_ONE)`.
pub fn random_symmetric_fx() -> (r: i64)
    ensures
        -FX_ONE <= r < FX_ONE,
{
    let x: u64 = rand::random::<u64>();
    ((x % 131072) as i64) - FX_ONE
}

/// A random scalar in `[-FX_HALF, FX_HALF)`, the jitter within one pixel.
pub fn random_half_fx() -> (r: i64)
    ensures
        -(crate::fixed::FX_HALF as int) <= r < crate::fixed::FX_HALF,
{
    let x: u64 = rand::random::<u64>();
    ((x % 65536) as i64) - crate::fixed::FX_HALF
}

/// A random index below `n`.
pub fn random_below(n: usize) -> (r: usize)
    requires
        n > 0,
    ensures
        r < n,
{
    let x: u64 = rand::random::<u64>();
    (x % (n as u64)) as usize
}

} // verus!
