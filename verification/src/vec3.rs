//! Three-component fixed-point vectors and points.

use vstd::prelude::*;
use crate::fixed::{
    fx_add, fx_add_v, fx_div, fx_div_v, fx_mul, fx_mul_v, fx_neg, fx_neg_v, fx_sub, fx_sub_v,
    iabs, FX_HALF, FX_ONE,
};
use crate::fmath::{fx_sqrt, fx_sqrt_v};
use crate::rng::random_symmetric_fx;

verus! {

/// Components below this magnitude count as a degenerate, near-zero vector.
pub const FX_NEAR_ZERO: i64 = 8;

#[derive(Clone, Copy, PartialEq, Eq, Structural, Debug)]
pub struct Vec3 {
    pub x: i64,
    pub y: i64,
    pub z: i64,
}

/// A point in space is a vector from the origin.
pub type Point3 = Vec3;

/// The componentwise sum.
pub open spec fn vec_add_v(a: Vec3, b: Vec3) -> Vec3 {
    Vec3 {
        x: fx_add_v(a.x as int, b.x as int) as i64,
        y: fx_add_v(a.y as int, b.y as int) as i64,
        z: fx_add_v(a.z as int, b.z as int) as i64,
    }
}

/// The componentwise difference.
pub open spec fn vec_sub_v(a: Vec3, b: Vec3) -> Vec3 {
    Vec3 {
        x: fx_sub_v(a.x as int, b.x as int) as i64,
        y: fx_sub_v(a.y as int, b.y as int) as i64,
        z: fx_sub_v(a.z as int, b.z as int) as i64,
    }
}

/// The componentwise negation.
pub open spec fn vec_neg_v(a: Vec3) -> Vec3 {
    Vec3 {
        x: fx_neg_v(a.x as int) as i64,
        y: fx_neg_v(a.y as int) as i64,
        z: fx_neg_v(a.z as int) as i64,
    }
}

/// The vector scaled by a fixed-point factor.
pub open spec fn vec_scale_v(a: Vec3, s: int) -> Vec3 {
    Vec3 {
        x: fx_mul_v(a.x as int, s) as i64,
        y: fx_mul_v(a.y as int, s) as i64,
        z: fx_mul_v(a.z as int, s) as i64,
    }
}

/// The vector divided componentwise by a fixed-point factor.
pub open spec fn vec_div_scalar_v(a: Vec3, s: int) -> Vec3 {
    Vec3 {
        x: fx_div_v(a.x as int, s) as i64,
        y: fx_div_v(a.y as int, s) as i64,
        z: fx_div_v(a.z as int, s) as i64,
    }
}

/// The dot product, folded left to right.
pub open spec fn vec_dot_v(a: Vec3, b: Vec3) -> int {
    fx_add_v(
        fx_add_v(fx_mul_v(a.x as int, b.x as int), fx_mul_v(a.y as int, b.y as int)),
        fx_mul_v(a.z as int, b.z as int),
    )
}

/// The squared length.
pub open spec fn vec_len_sq_v(a: Vec3) -> int {
    vec_dot_v(a, a)
}

/// The length: square root of the squared length.
pub open spec fn vec_len_v(a: Vec3) -> int {
    fx_sqrt_v(vec_len_sq_v(a))
}

/// The cross product.
pub open spec fn vec_cross_v(a: Vec3, b: Vec3) -> Vec3 {
    Vec3 {
        x: fx_sub_v(fx_mul_v(a.y as int, b.z as int), fx_mul_v(a.z as int, b.y as int)) as i64,
        y: fx_sub_v(fx_mul_v(a.z as int, b.x as int), fx_mul_v(a.x as int, b.z as int)) as i64,
        z: fx_sub_v(fx_mul_v(a.x as int, b.y as int), fx_mul_v(a.y as int, b.x as int)) as i64,
    }
}

/// The vector rescaled to unit length; degenerate when the length is zero.
pub open spec fn vec_unit_v(a: Vec3) -> Vec3 {
    vec_div_scalar_v(a, vec_len_v(a))
}

/// Whether every component is smaller in magnitude than the near-zero
/// threshold.
pub open spec fn vec_near_zero_v(a: Vec3) -> bool {
    iabs(a.x as int) < FX_NEAR_ZERO && iabs(a.y as int) < FX_NEAR_ZERO && iabs(a.z as int)
        < FX_NEAR_ZERO
}

/// The reflection of `a` about the plane with unit normal `n`:
/// `a - 2 (a . n) n`.
pub open spec fn vec_reflect_v(a: Vec3, n: Vec3) -> Vec3 {
    vec_sub_v(a, vec_scale_v(n, fx_mul_v(2 * (FX_ONE as int), vec_dot_v(a, n))))
}

impl Vec3 {
    /// The vector with the given fixed-point components.
    pub fn new(e0: i64, e1: i64, e2: i64) -> (r: Self)
        ensures
            r == (Vec3 { x: e0, y: e1, z: e2 }),
    {
        Vec3 { x: e0, y: e1, z: e2 }
    }

    /// The zero vector.
    pub fn zero() -> (r: Self)
        ensures
            r == (Vec3 { x: 0i64, y: 0i64, z: 0i64 }),
    {
        Vec3 { x: 0, y: 0, z: 0 }
    }

    /// Componentwise sum.
    pub fn add(self, rhs: Self) -> (r: Self)
        ensures
            r == vec_add_v(self, rhs),
    {
        Vec3 { x: fx_add(self.x, rhs.x), y: fx_add(self.y, rhs.y), z: fx_add(self.z, rhs.z) }
    }

    /// Componentwise difference.
    pub fn sub(self, rhs: Self) -> (r: Self)
        ensures
            r == vec_sub_v(self, rhs),
    {
        Vec3 { x: fx_sub(self.x, rhs.x), y: fx_sub(self.y, rhs.y), z: fx_sub(self.z, rhs.z) }
    }

    /// Componentwise negation.
    pub fn neg(self) -> (r: Self)
        ensures
            r == vec_neg_v(self),
    {
        Vec3 { x: fx_neg(self.x), y: fx_neg(self.y), z: fx_neg(self.z) }
    }

    /// The vector scaled by a fixed-point factor.
    pub fn scale(self, s: i64) -> (r: Self)
        ensures
            r == vec_scale_v(self, s as int),
    {
        Vec3 { x: fx_mul(self.x, s), y: fx_mul(self.y, s), z: fx_mul(self.z, s) }
    }

    /// The vector divided by a fixed-point factor.
    pub fn div_scalar(self, s: i64) -> (r: Self)
        ensures
            r == vec_div_scalar_v(self, s as int),
    {
        Vec3 { x: fx_div(self.x, s), y: fx_div(self.y, s), z: fx_div(self.z, s) }
    }

    /// The first component.
    pub fn x(&self) -> (r: i64)
        ensures
            r == self.x,
    {
        self.x
    }

    /// The second component.
    pub fn y(&self) -> (r: i64)
        ensures
            r == self.y,
    {
        self.y
    }

    /// The third component.
    pub fn z(&self) -> (r: i64)
        ensures
            r == self.z,
    {
        self.z
    }

    /// The component along the given axis: `0` is x, `1` is y, anything else
    /// is z.
    pub fn axis(&self, index: usize) -> (r: i64)
        ensures
            r == axis_of(*self, index as int),
    {
        if index == 0 {
            self.x
        } else if index == 1 {
            self.y
        } else {
            self.z
        }
    }

    /// The squared length.
    pub fn length_squared(&self) -> (r: i64)
        ensures
            r == vec_len_sq_v(*self),
    {
        self.dot(*self)
    }

    /// The length.
    pub fn length(&self) -> (r: i64)
        ensures
            r == vec_len_v(*self),
            r >= 0,
    {
        fx_sqrt(self.length_squared())
    }

    /// The dot product with another vector.
    pub fn dot(&self, other: Self) -> (r: i64)
        ensures
            r == vec_dot_v(*self, other),
    {
        fx_add(
            fx_add(fx_mul(self.x, other.x), fx_mul(self.y, other.y)),
            fx_mul(self.z, other.z),
        )
    }

    /// The cross product with another vector.
    pub fn cross(&self, other: Self) -> (r: Self)
        ensures
            r == vec_cross_v(*self, other),
    {
        Vec3 {
            x: fx_sub(fx_mul(self.y, other.z), fx_mul(self.z, other.y)),
            y: fx_sub(fx_mul(self.z, other.x), fx_mul(self.x, other.z)),
            z: fx_sub(fx_mul(self.x, other.y), fx_mul(self.y, other.x)),
        }
    }

    /// The vector rescaled to unit length; degenerate when the length is
    /// zero.
    pub fn unit_vector(&self) -> (r: Vec3)
        ensures
            r == vec_unit_v(*self),
    {
        self.div_scalar(self.length())
    }

    /// Whether the vector is close to zero in every component.
    pub fn near_zero(&self) -> (r: bool)
        ensures
            r == vec_near_zero_v(*self),
    {
        let ax = crate::fixed::fx_abs(self.x);
        let ay = crate::fixed::fx_abs(self.y);
        let az = crate::fixed::fx_abs(self.z);
        ax < FX_NEAR_ZERO && ay < FX_NEAR_ZERO && az < FX_NEAR_ZERO
    }

    /// The reflection about the plane with unit normal `normal`.
    pub fn reflect(&self, normal: Vec3) -> (r: Self)
        ensures
            r == vec_reflect_v(*self, normal),
    {
        let d = self.dot(normal);
        let two = fx_mul(2 * FX_ONE, d);
        self.sub(normal.scale(two))
    }

    /// A random vector with components in `[-FX_ONE, FX_ONE)`.
    pub fn random_symmetric() -> (r: Self) {
        Vec3 { x: random_symmetric_fx(), y: random_symmetric_fx(), z: random_symmetric_fx() }
    }

    /// A random vector strictly inside the unit sphere whose squared length
    /// does not truncate to zero, so it can be normalized. Rejection
    /// sampling with a bounded number of tries; after the budget a fixed
    /// interior fallback is returned.
    pub fn random_in_unit_sphere() -> (r: Self)
        ensures
            0 < vec_len_sq_v(r) < FX_ONE,
            !vec_near_zero_v(r),
    {
        let mut tries: usize = 0;
        while tries < 64
            invariant
                tries <= 64,
            decreases 64 - tries,
        {
            let p = Vec3::random_symmetric();
            let ls = p.length_squared();
            if 0 < ls && ls < FX_ONE && !p.near_zero() {
                return p;
            }
            tries = tries + 1;
        }
        let fallback = Vec3 { x: FX_HALF, y: 0, z: 0 };
        proof {
            lemma_fallback_in_sphere(fallback);
        }
        fallback
    }

    /// A random vector of roughly unit length: the normalization of some
    /// draw strictly inside the unit ball whose squared length is positive.
    pub fn random_unit_vector() -> (r: Self)
        ensures
            vec_bounded(r),
            exists|p: Vec3|
                0 < vec_len_sq_v(p) < FX_ONE && !vec_near_zero_v(p) && r == #[trigger] vec_unit_v(
                    p,
                ),
    {
        let drawn = Vec3::random_in_unit_sphere();
        let r = drawn.unit_vector();
        proof {
            assert(r == vec_unit_v(drawn));
        }
        r
    }

    /// A random roughly-unit vector in the hemisphere around `normal`.
    pub fn random_on_hemisphere(normal: Vec3) -> (r: Self)
        ensures
            vec_dot_v(r, normal) >= 0,
    {
        let on_sphere = Vec3::random_unit_vector();
        let d = on_sphere.dot(normal);
        if d > 0 {
            on_sphere
        } else {
            proof {
                lemma_dot_neg(on_sphere, normal);
            }
            on_sphere.neg()
        }
    }

    /// A random vector strictly inside the unit disk of the x-y plane.
    pub fn random_in_unit_disk() -> (r: Self)
        ensures
            vec_len_sq_v(r) < FX_ONE,
            r.z == 0,
    {
        let mut tries: usize = 0;
        while tries < 64
            invariant
                tries <= 64,
            decreases 64 - tries,
        {
            let p = Vec3 { x: random_symmetric_fx(), y: random_symmetric_fx(), z: 0 };
            if p.length_squared() < FX_ONE {
                return p;
            }
            tries = tries + 1;
        }
        let fallback = Vec3 { x: FX_HALF, y: 0, z: 0 };
        proof {
            lemma_fallback_in_sphere(fallback);
        }
        fallback
    }
}

/// Whether every component lies within the saturation bound, as every
/// arithmetic result here does.
pub open spec fn vec_bounded(v: Vec3) -> bool {
    iabs(v.x as int) <= crate::fixed::FX_HUGE && iabs(v.y as int) <= crate::fixed::FX_HUGE && iabs(
        v.z as int,
    ) <= crate::fixed::FX_HUGE
}

/// The component of a vector along an axis index.
pub open spec fn axis_of(v: Vec3, index: int) -> i64 {
    if index == 0 {
        v.x
    } else if index == 1 {
        v.y
    } else {
        v.z
    }
}

proof fn lemma_fallback_in_sphere(v: Vec3)
    requires
        v == (Vec3 { x: FX_HALF, y: 0i64, z: 0i64 }),
    ensures
        0 < vec_len_sq_v(v) < FX_ONE,
        !vec_near_zero_v(v),
{
    assert(32768int * 32768 == 0x4000_0000) by (nonlinear_arith);
    assert(16384int * 65536 == 0x4000_0000) by (nonlinear_arith);
    vstd::arithmetic::div_mod::lemma_fundamental_div_mod_converse(0x4000_0000, 65536, 16384, 0);
    assert(fx_mul_v(FX_HALF as int, FX_HALF as int) == 0x4000);
    assert(fx_mul_v(0, 0) == 0);
}

/// Negating one side of a dot product flips its sign: every fixed-point
/// product and sum here truncates and saturates symmetrically.
proof fn lemma_dot_neg(a: Vec3, b: Vec3)
    requires
        iabs(a.x as int) <= crate::fixed::FX_HUGE,
        iabs(a.y as int) <= crate::fixed::FX_HUGE,
        iabs(a.z as int) <= crate::fixed::FX_HUGE,
    ensures
        vec_dot_v(vec_neg_v(a), b) == fx_neg_v(vec_dot_v(a, b)),
{
    lemma_mul_neg(a.x as int, b.x as int);
    lemma_mul_neg(a.y as int, b.y as int);
    lemma_mul_neg(a.z as int, b.z as int);
}

proof fn lemma_mul_neg(a: int, b: int)
    requires
        iabs(a) <= crate::fixed::FX_HUGE,
    ensures
        fx_mul_v(fx_neg_v(a), b) == -fx_mul_v(a, b),
{
    assert(iabs((-a) * b) == iabs(a * b) && ((-a) * b > 0 <==> a * b < 0) && ((-a) * b < 0 <==> a
        * b > 0)) by (nonlinear_arith);
}

} // verus!
