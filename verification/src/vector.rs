//! Three-dimensional vectors over fixed-point scalars.
//!
//! Each executable operation returns exactly the value of its
//! specification function, stated over the raw fixed-point
//! representations.

use crate::fixed::{fx_add_s, fx_div_s, fx_mul_s, fx_sqrt_s, fx_sub_s, Fx};
use vstd::prelude::*;

verus! {

/// A vector of three fixed-point coordinates.
#[derive(Clone, Copy, Debug, PartialEq, Eq, Structural)]
pub struct Vec3 {
    pub x: Fx,
    pub y: Fx,
    pub z: Fx,
}

/// The scalar with the given in-range raw representation.
pub open spec fn fx_of(raw_val: int) -> Fx {
    Fx { raw: raw_val as i64 }
}

/// The zero vector.
pub open spec fn v3_zero_s() -> Vec3 {
    Vec3 { x: fx_of(0), y: fx_of(0), z: fx_of(0) }
}

/// Component-wise vector sum.
pub open spec fn v3_add_s(a: Vec3, b: Vec3) -> Vec3 {
    Vec3 {
        x: fx_of(fx_add_s(a.x.raw as int, b.x.raw as int)),
        y: fx_of(fx_add_s(a.y.raw as int, b.y.raw as int)),
        z: fx_of(fx_add_s(a.z.raw as int, b.z.raw as int)),
    }
}

/// Component-wise vector difference.
pub open spec fn v3_sub_s(a: Vec3, b: Vec3) -> Vec3 {
    Vec3 {
        x: fx_of(fx_sub_s(a.x.raw as int, b.x.raw as int)),
        y: fx_of(fx_sub_s(a.y.raw as int, b.y.raw as int)),
        z: fx_of(fx_sub_s(a.z.raw as int, b.z.raw as int)),
    }
}

/// The vector scaled by `k`.
pub open spec fn v3_scale_s(v: Vec3, k: Fx) -> Vec3 {
    Vec3 {
        x: fx_of(fx_mul_s(v.x.raw as int, k.raw as int)),
        y: fx_of(fx_mul_s(v.y.raw as int, k.raw as int)),
        z: fx_of(fx_mul_s(v.z.raw as int, k.raw as int)),
    }
}

/// Raw representation of the dot product of `a` and `b`.
pub open spec fn v3_dot_s(a: Vec3, b: Vec3) -> int {
    fx_add_s(
        fx_add_s(
            fx_mul_s(a.x.raw as int, b.x.raw as int),
            fx_mul_s(a.y.raw as int, b.y.raw as int),
        ),
        fx_mul_s(a.z.raw as int, b.z.raw as int),
    )
}

/// Raw representation of the Euclidean norm of `v`.
pub open spec fn v3_norm_s(v: Vec3) -> int {
    fx_sqrt_s(v3_dot_s(v, v))
}

/// The unit vector along `v`, or the zero vector when `v` has norm zero.
pub open spec fn v3_normalize_s(v: Vec3) -> Vec3 {
    let n = v3_norm_s(v);
    if n == 0 {
        v3_zero_s()
    } else {
        Vec3 {
            x: fx_of(fx_div_s(v.x.raw as int, n)),
            y: fx_of(fx_div_s(v.y.raw as int, n)),
            z: fx_of(fx_div_s(v.z.raw as int, n)),
        }
    }
}

/// The vector leading from point `a` to point `b`.
pub open spec fn v3_between_s(a: Vec3, b: Vec3) -> Vec3 {
    v3_sub_s(b, a)
}

/// Raw representation of the distance from point `a` to point `b`.
pub open spec fn v3_distance_s(a: Vec3, b: Vec3) -> int {
    v3_norm_s(v3_between_s(a, b))
}

/// The reflection of direction `d` about the normal `n`:
/// `d - 2 (d . n) n`.
pub open spec fn v3_reflect_s(d: Vec3, n: Vec3) -> Vec3 {
    let dp = v3_dot_s(d, n);
    v3_sub_s(d, v3_scale_s(n, fx_of(fx_add_s(dp, dp))))
}

impl Vec3 {
    /// The vector with the given coordinates.
    pub fn new(x: Fx, y: Fx, z: Fx) -> (r: Vec3)
        ensures
            r == (Vec3 { x, y, z }),
    {
        Vec3 { x, y, z }
    }

    /// The zero vector.
    pub fn zero() -> (r: Vec3)
        ensures
            r == v3_zero_s(),
    {
        Vec3 { x: Fx::zero(), y: Fx::zero(), z: Fx::zero() }
    }

    /// Component-wise vector sum.
    pub fn add(self, other: Vec3) -> (r: Vec3)
        ensures
            r == v3_add_s(self, other),
    {
        Vec3 { x: self.x.add(other.x), y: self.y.add(other.y), z: self.z.add(other.z) }
    }

    /// Component-wise vector difference.
    pub fn sub(self, other: Vec3) -> (r: Vec3)
        ensures
            r == v3_sub_s(self, other),
    {
        Vec3 { x: self.x.sub(other.x), y: self.y.sub(other.y), z: self.z.sub(other.z) }
    }

    /// The vector scaled by `k`.
    pub fn scale(self, k: Fx) -> (r: Vec3)
        ensures
            r == v3_scale_s(self, k),
    {
        Vec3 { x: self.x.mul(k), y: self.y.mul(k), z: self.z.mul(k) }
    }

    /// The dot product of `self` and `other`.
    pub fn dot_product(self, other: Vec3) -> (r: Fx)
        ensures
            r.raw as int == v3_dot_s(self, other),
    {
        self.x.mul(other.x).add(self.y.mul(other.y)).add(self.z.mul(other.z))
    }

    /// The Euclidean norm of `self`.
    pub fn norm(self) -> (r: Fx)
        ensures
            r.raw as int == v3_norm_s(self),
    {
        self.dot_product(self).sqrt()
    }

    /// The unit vector along `self`, or zero when the norm is zero.
    pub fn normalize(self) -> (r: Vec3)
        ensures
            r == v3_normalize_s(self),
    {
        let n = self.norm();
        if n.raw == 0 {
            Vec3::zero()
        } else {
            Vec3 { x: self.x.div(n), y: self.y.div(n), z: self.z.div(n) }
        }
    }

    /// The vector leading from point `a` to point `b`.
    pub fn between_points(a: Vec3, b: Vec3) -> (r: Vec3)
        ensures
            r == v3_between_s(a, b),
    {
        b.sub(a)
    }

    /// The distance from `self` to the point `other`.
    pub fn distance(self, other: Vec3) -> (r: Fx)
        ensures
            r.raw as int == v3_distance_s(self, other),
    {
        Vec3::between_points(self, other).norm()
    }

    /// The reflection of `self` about the normal `n`.
    pub fn reflect(self, n: Vec3) -> (r: Vec3)
        ensures
            r == v3_reflect_s(self, n),
    {
        let dp = self.dot_product(n);
        self.sub(n.scale(dp.add(dp)))
    }
}

} // verus!
