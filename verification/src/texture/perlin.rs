//! Perlin gradient noise over fixed-point coordinates.
//!
//! The tables — one vector of random unit gradients and three permutations —
//! are built once with the random source; evaluation is pure arithmetic and
//! is pinned to spec-level mirrors.

use vstd::prelude::*;
use crate::fixed::{fx_add, fx_add_v, fx_from_int, fx_mul, fx_mul_v, fx_sub, fx_sub_v, sat, FX_ONE};
use crate::fmath::fx_floor_int;
use crate::rng::random_below;
use crate::vec3::{vec_dot_v, vec_scale_v, Point3, Vec3};

verus! {

/// The number of entries in each noise table.
pub const POINT_COUNT: usize = 256;

#[derive(Clone, PartialEq, Eq, Debug)]
pub struct PerlinNoise {
    pub rand_vec: Vec<Vec3>,
    pub perm_x: Vec<usize>,
    pub perm_y: Vec<usize>,
    pub perm_z: Vec<usize>,
}

/// A usable permutation table: the right length, every entry a valid index.
pub open spec fn perm_wf(p: Seq<usize>) -> bool {
    p.len() == POINT_COUNT && (forall|i: int| 0 <= i < p.len() ==> (#[trigger] p[i]) < POINT_COUNT)
}

/// A usable noise table set.
pub open spec fn perlin_wf(n: PerlinNoise) -> bool {
    n.rand_vec@.len() == POINT_COUNT && perm_wf(n.perm_x@) && perm_wf(n.perm_y@) && perm_wf(
        n.perm_z@,
    )
}

/// The exclusive-or of three table entries, the gradient index of a lattice
/// corner.
pub open spec fn xor3(a: usize, b: usize, c: usize) -> int {
    (((a as u64) ^ (b as u64)) ^ (c as u64)) as int
}

/// The gradient at lattice corner `(i + di, j + dj, k + dk)`.
pub open spec fn corner_gradient_v(n: PerlinNoise, i: int, j: int, k: int, di: int, dj: int, dk: int) -> Vec3
    recommends
        perlin_wf(n),
{
    let px = n.perm_x@[(i + di) % 256];
    let py = n.perm_y@[(j + dj) % 256];
    let pz = n.perm_z@[(k + dk) % 256];
    n.rand_vec@[xor3(px, py, pz)]
}

/// The Hermite smoothing `x * x * (3 - 2 x)` over fixed-point ops.
pub open spec fn smooth_v(x: int) -> int {
    fx_mul_v(fx_mul_v(x, x), fx_sub_v(3 * (FX_ONE as int), fx_add_v(x, x)))
}

/// One corner's share of the trilinear blend: the product of the three axis
/// factors times the dot of the gradient with the offset to the corner.
pub open spec fn corner_term_v(g: Vec3, u: int, v: int, w: int, uu: int, vv: int, ww: int, di: int, dj: int, dk: int) -> int {
    let fu = if di == 1 {
        uu
    } else {
        fx_sub_v(FX_ONE as int, uu)
    };
    let fv = if dj == 1 {
        vv
    } else {
        fx_sub_v(FX_ONE as int, vv)
    };
    let fw = if dk == 1 {
        ww
    } else {
        fx_sub_v(FX_ONE as int, ww)
    };
    let weight = Vec3 {
        x: fx_sub_v(u, if di == 1 {
            FX_ONE as int
        } else {
            0
        }) as i64,
        y: fx_sub_v(v, if dj == 1 {
            FX_ONE as int
        } else {
            0
        }) as i64,
        z: fx_sub_v(w, if dk == 1 {
            FX_ONE as int
        } else {
            0
        }) as i64,
    };
    fx_mul_v(fx_mul_v(fx_mul_v(fu, fv), fw), vec_dot_v(g, weight))
}

/// The noise value at a point: fractional offsets, Hermite smoothing, and
/// the trilinear blend of the eight corner gradients.
pub open spec fn perlin_noise_v(n: PerlinNoise, p: Point3) -> int
    recommends
        perlin_wf(n),
{
    let i = (p.x as int) / (FX_ONE as int);
    let j = (p.y as int) / (FX_ONE as int);
    let k = (p.z as int) / (FX_ONE as int);
    let u = fx_sub_v(p.x as int, sat(i * (FX_ONE as int)));
    let v = fx_sub_v(p.y as int, sat(j * (FX_ONE as int)));
    let w = fx_sub_v(p.z as int, sat(k * (FX_ONE as int)));
    let uu = smooth_v(u);
    let vv = smooth_v(v);
    let ww = smooth_v(w);
    let t000 = corner_term_v(corner_gradient_v(n, i, j, k, 0, 0, 0), u, v, w, uu, vv, ww, 0, 0, 0);
    let t001 = corner_term_v(corner_gradient_v(n, i, j, k, 0, 0, 1), u, v, w, uu, vv, ww, 0, 0, 1);
    let t010 = corner_term_v(corner_gradient_v(n, i, j, k, 0, 1, 0), u, v, w, uu, vv, ww, 0, 1, 0);
    let t011 = corner_term_v(corner_gradient_v(n, i, j, k, 0, 1, 1), u, v, w, uu, vv, ww, 0, 1, 1);
    let t100 = corner_term_v(corner_gradient_v(n, i, j, k, 1, 0, 0), u, v, w, uu, vv, ww, 1, 0, 0);
    let t101 = corner_term_v(corner_gradient_v(n, i, j, k, 1, 0, 1), u, v, w, uu, vv, ww, 1, 0, 1);
    let t110 = corner_term_v(corner_gradient_v(n, i, j, k, 1, 1, 0), u, v, w, uu, vv, ww, 1, 1, 0);
    let t111 = corner_term_v(corner_gradient_v(n, i, j, k, 1, 1, 1), u, v, w, uu, vv, ww, 1, 1, 1);
    fx_add_v(
        fx_add_v(
            fx_add_v(fx_add_v(fx_add_v(fx_add_v(fx_add_v(t000, t001), t010), t011), t100), t101),
            t110,
        ),
        t111,
    )
}

/// Turbulence: the absolute value of a sum of octaves, each at doubled
/// frequency and halved weight.
pub open spec fn perlin_turb_go_v(n: PerlinNoise, p: Point3, weight: int, acc: int, depth: int) -> int
    decreases depth,
{
    if depth <= 0 {
        sat(if acc < 0 {
            -acc
        } else {
            acc
        })
    } else {
        perlin_turb_go_v(
            n,
            vec_scale_v(p, 2 * (FX_ONE as int)),
            fx_mul_v(weight, crate::fixed::FX_HALF as int),
            fx_add_v(acc, fx_mul_v(weight, perlin_noise_v(n, p))),
            depth - 1,
        )
    }
}

/// The turbulence at a point for a given octave depth.
pub open spec fn perlin_turb_v(n: PerlinNoise, p: Point3, depth: int) -> int {
    perlin_turb_go_v(n, p, FX_ONE as int, 0, depth)
}

impl PerlinNoise {
    /// Fresh tables: random unit gradients and three random permutations.
    pub fn new() -> (r: Self)
        ensures
            perlin_wf(r),
    {
        let mut rand_vec: Vec<Vec3> = Vec::new();
        let mut i: usize = 0;
        while i < POINT_COUNT
            invariant
                rand_vec@.len() == i,
                i <= POINT_COUNT,
            decreases POINT_COUNT - i,
        {
            rand_vec.push(Vec3::random_unit_vector());
            i = i + 1;
        }
        let perm_x = perlin_generate_perm();
        let perm_y = perlin_generate_perm();
        let perm_z = perlin_generate_perm();
        PerlinNoise { rand_vec, perm_x, perm_y, perm_z }
    }

    /// The gradient at a lattice corner.
    fn corner_gradient(&self, i: i64, j: i64, k: i64, di: i64, dj: i64, dk: i64) -> (r: Vec3)
        requires
            perlin_wf(*self),
            -0x7fff_ffff_ffff_0000 < i + di < 0x7fff_ffff_ffff_0000,
            -0x7fff_ffff_ffff_0000 < j + dj < 0x7fff_ffff_ffff_0000,
            -0x7fff_ffff_ffff_0000 < k + dk < 0x7fff_ffff_ffff_0000,
        ensures
            r == corner_gradient_v(*self, i as int, j as int, k as int, di as int, dj as int, dk as int),
    {
        let ix = crate::fmath::fx_mod(i + di, 256) as usize;
        let iy = crate::fmath::fx_mod(j + dj, 256) as usize;
        let iz = crate::fmath::fx_mod(k + dk, 256) as usize;
        let px = self.perm_x[ix];
        let py = self.perm_y[iy];
        let pz = self.perm_z[iz];
        let xi = ((px as u64) ^ (py as u64)) ^ (pz as u64);
        proof {
            assert(((px as u64) ^ (py as u64)) < 256 && (((px as u64) ^ (py as u64)) ^ (pz as u64))
                < 256) by (bit_vector)
                requires
                    (px as u64) < 256,
                    (py as u64) < 256,
                    (pz as u64) < 256,
            ;
        }
        self.rand_vec[xi as usize]
    }

    /// The noise value at a point.
    pub fn noise(&self, p: Point3) -> (r: i64)
        requires
            perlin_wf(*self),
        ensures
            r == perlin_noise_v(*self, p),
    {
        let i = fx_floor_int(p.x);
        let j = fx_floor_int(p.y);
        let k = fx_floor_int(p.z);
        let u = fx_sub(p.x, fx_from_int(i));
        let v = fx_sub(p.y, fx_from_int(j));
        let w = fx_sub(p.z, fx_from_int(k));
        let uu = smooth(u);
        let vv = smooth(v);
        let ww = smooth(w);
        let mut acc: i64 = 0;
        acc = corner_term(self.corner_gradient(i, j, k, 0, 0, 0), u, v, w, uu, vv, ww, false, false, false);
        acc = fx_add(acc, corner_term(self.corner_gradient(i, j, k, 0, 0, 1), u, v, w, uu, vv, ww, false, false, true));
        acc = fx_add(acc, corner_term(self.corner_gradient(i, j, k, 0, 1, 0), u, v, w, uu, vv, ww, false, true, false));
        acc = fx_add(acc, corner_term(self.corner_gradient(i, j, k, 0, 1, 1), u, v, w, uu, vv, ww, false, true, true));
        acc = fx_add(acc, corner_term(self.corner_gradient(i, j, k, 1, 0, 0), u, v, w, uu, vv, ww, true, false, false));
        acc = fx_add(acc, corner_term(self.corner_gradient(i, j, k, 1, 0, 1), u, v, w, uu, vv, ww, true, false, true));
        acc = fx_add(acc, corner_term(self.corner_gradient(i, j, k, 1, 1, 0), u, v, w, uu, vv, ww, true, true, false));
        acc = fx_add(acc, corner_term(self.corner_gradient(i, j, k, 1, 1, 1), u, v, w, uu, vv, ww, true, true, true));
        acc
    }

    /// The turbulence at a point for the given octave depth.
    pub fn turb(&self, p: Point3, depth: u32) -> (r: i64)
        requires
            perlin_wf(*self),
        ensures
            r == perlin_turb_v(*self, p, depth as int),
    {
        let mut acc: i64 = 0;
        let mut temp_p = p;
        let mut weight: i64 = FX_ONE;
        let mut it: u32 = 0;
        while it < depth
            invariant
                perlin_wf(*self),
                it <= depth,
                perlin_turb_v(*self, p, depth as int) == perlin_turb_go_v(
                    *self,
                    temp_p,
                    weight as int,
                    acc as int,
                    depth - it,
                ),
            decreases depth - it,
        {
            acc = fx_add(acc, fx_mul(weight, self.noise(temp_p)));
            weight = fx_mul(weight, crate::fixed::FX_HALF);
            temp_p = temp_p.scale(2 * FX_ONE);
            it = it + 1;
        }
        crate::fixed::fx_abs(acc)
    }
}

/// Hermite smoothing of one fractional coordinate.
fn smooth(x: i64) -> (r: i64)
    ensures
        r == smooth_v(x as int),
{
    fx_mul(fx_mul(x, x), fx_sub(3 * FX_ONE, fx_add(x, x)))
}

/// One corner's share of the trilinear blend.
fn corner_term(g: Vec3, u: i64, v: i64, w: i64, uu: i64, vv: i64, ww: i64, di: bool, dj: bool, dk: bool) -> (r: i64)
    ensures
        r == corner_term_v(
            g,
            u as int,
            v as int,
            w as int,
            uu as int,
            vv as int,
            ww as int,
            if di {
                1int
            } else {
                0int
            },
            if dj {
                1int
            } else {
                0int
            },
            if dk {
                1int
            } else {
                0int
            },
        ),
{
    let fu = if di {
        uu
    } else {
        fx_sub(FX_ONE, uu)
    };
    let fv = if dj {
        vv
    } else {
        fx_sub(FX_ONE, vv)
    };
    let fw = if dk {
        ww
    } else {
        fx_sub(FX_ONE, ww)
    };
    let weight = Vec3 {
        x: fx_sub(u, if di {
            FX_ONE
        } else {
            0
        }),
        y: fx_sub(v, if dj {
            FX_ONE
        } else {
            0
        }),
        z: fx_sub(w, if dk {
            FX_ONE
        } else {
            0
        }),
    };
    fx_mul(fx_mul(fx_mul(fu, fv), fw), g.dot(weight))
}

impl PerlinNoise {
    /// Whether the tables are usable, decided at run time.
    pub fn is_well_formed(&self) -> (r: bool)
        ensures
            r == perlin_wf(*self),
    {
        self.rand_vec.len() == POINT_COUNT && perm_is_well_formed(&self.perm_x)
            && perm_is_well_formed(&self.perm_y) && perm_is_well_formed(&self.perm_z)
    }
}

/// Whether one permutation table is usable, decided at run time.
fn perm_is_well_formed(p: &Vec<usize>) -> (r: bool)
    ensures
        r == perm_wf(p@),
{
    if p.len() != POINT_COUNT {
        return false;
    }
    let mut i: usize = 0;
    while i < p.len()
        invariant
            i <= p@.len(),
            p@.len() == POINT_COUNT,
            forall|k: int| 0 <= k < i ==> (#[trigger] p@[k]) < POINT_COUNT,
        decreases p@.len() - i,
    {
        if p[i] >= POINT_COUNT {
            return false;
        }
        i = i + 1;
    }
    true
}

/// A fresh permutation table of the indices below `POINT_COUNT`.
pub fn perlin_generate_perm() -> (r: Vec<usize>)
    ensures
        perm_wf(r@),
{
    let mut p: Vec<usize> = Vec::new();
    let mut i: usize = 0;
    while i < POINT_COUNT
        invariant
            p@.len() == i,
            i <= POINT_COUNT,
            forall|k: int| 0 <= k < i ==> (#[trigger] p@[k]) < POINT_COUNT,
        decreases POINT_COUNT - i,
    {
        p.push(i);
        i = i + 1;
    }
    permute(&mut p, POINT_COUNT);
    p
}

/// Shuffle the table in place by swapping each slot below a random earlier
/// slot, walking down from the top.
fn permute(p: &mut Vec<usize>, n: usize)
    requires
        old(p)@.len() == POINT_COUNT,
        n == POINT_COUNT,
        forall|k: int| 0 <= k < POINT_COUNT ==> (#[trigger] old(p)@[k]) < POINT_COUNT,
    ensures
        perm_wf(final(p)@),
{
    let mut i: usize = n - 1;
    while i > 1
        invariant
            1 <= i <= n - 1,
            n == POINT_COUNT,
            p@.len() == POINT_COUNT,
            forall|k: int| 0 <= k < POINT_COUNT ==> (#[trigger] p@[k]) < POINT_COUNT,
        decreases i,
    {
        i = i - 1;
        let target = random_below(i + 1);
        let tmp = p[i];
        let pt = p[target];
        p[i] = pt;
        p[target] = tmp;
    }
}

} // verus!
