//! 3-component vectors and points over the fixed-point scalar.

use vstd::prelude::*;
use crate::fx::{Fx, fx_add, fx_sub, fx_mul, fx_neg, fx_div, fx_sqrt};

verus! {

/// A 3-vector (also used for points) of fixed-point scalars.
#[derive(Clone, Copy, PartialEq, Eq, Structural, Debug)]
pub struct Vec3 {
    pub x: Fx,
    pub y: Fx,
    pub z: Fx,
}

/// The scalar with the given (in-range) raw value; specification helper.
pub open spec fn fxv(r: int) -> Fx {
    Fx { raw: r as i64 }
}

/// Componentwise vector addition.
pub open spec fn v_add(a: Vec3, b: Vec3) -> Vec3 {
    Vec3 {
        x: fxv(fx_add(a.x.raw as int, b.x.raw as int)),
        y: fxv(fx_add(a.y.raw as int, b.y.raw as int)),
        z: fxv(fx_add(a.z.raw as int, b.z.raw as int)),
    }
}

/// Componentwise vector subtraction.
pub open spec fn v_sub(a: Vec3, b: Vec3) -> Vec3 {
    Vec3 {
        x: fxv(fx_sub(a.x.raw as int, b.x.raw as int)),
        y: fxv(fx_sub(a.y.raw as int, b.y.raw as int)),
        z: fxv(fx_sub(a.z.raw as int, b.z.raw as int)),
    }
}

/// Componentwise negation.
pub open spec fn v_neg(a: Vec3) -> Vec3 {
    Vec3 {
        x: fxv(fx_neg(a.x.raw as int)),
        y: fxv(fx_neg(a.y.raw as int)),
        z: fxv(fx_neg(a.z.raw as int)),
    }
}

/// Multiplication of a vector by a scalar.
pub open spec fn v_scale(a: Vec3, k: Fx) -> Vec3 {
    Vec3 {
        x: fxv(fx_mul(a.x.raw as int, k.raw as int)),
        y: fxv(fx_mul(a.y.raw as int, k.raw as int)),
        z: fxv(fx_mul(a.z.raw as int, k.raw as int)),
    }
}

/// Division of a vector by a scalar, componentwise.
pub open spec fn v_div_s(a: Vec3, k: Fx) -> Vec3 {
    Vec3 {
        x: fxv(fx_div(a.x.raw as int, k.raw as int)),
        y: fxv(fx_div(a.y.raw as int, k.raw as int)),
        z: fxv(fx_div(a.z.raw as int, k.raw as int)),
    }
}

/// Dot product, summed left to right.
pub open spec fn v_dot(a: Vec3, b: Vec3) -> int {
    fx_add(
        fx_add(
            fx_mul(a.x.raw as int, b.x.raw as int),
            fx_mul(a.y.raw as int, b.y.raw as int),
        ),
        fx_mul(a.z.raw as int, b.z.raw as int),
    )
}

/// Cross product.
pub open spec fn v_cross(a: Vec3, b: Vec3) -> Vec3 {
    Vec3 {
        x: fxv(fx_sub(
            fx_mul(a.y.raw as int, b.z.raw as int),
            fx_mul(a.z.raw as int, b.y.raw as int),
        )),
        y: fxv(fx_sub(
            fx_mul(a.z.raw as int, b.x.raw as int),
            fx_mul(a.x.raw as int, b.z.raw as int),
        )),
        z: fxv(fx_sub(
            fx_mul(a.x.raw as int, b.y.raw as int),
            fx_mul(a.y.raw as int, b.x.raw as int),
        )),
    }
}

/// Squared length of a vector.
pub open spec fn v_norm2(a: Vec3) -> int {
    v_dot(a, a)
}

/// Squared distance between two points.
pub open spec fn v_dist2(a: Vec3, b: Vec3) -> int {
    v_norm2(v_sub(a, b))
}

/// Length of a vector.
pub open spec fn v_len(a: Vec3) -> int {
    fx_sqrt(v_norm2(a))
}

/// Vector scaled to unit length; the zero vector (and any vector whose
/// computed length underflows to zero) is returned unchanged as a
/// defined sentinel for degenerate input.
pub open spec fn v_normalize(a: Vec3) -> Vec3 {
    let l = v_len(a);
    if l == 0 {
        a
    } else {
        Vec3 {
            x: fxv(fx_div(a.x.raw as int, l)),
            y: fxv(fx_div(a.y.raw as int, l)),
            z: fxv(fx_div(a.z.raw as int, l)),
        }
    }
}

impl Vec3 {
    /// The vector with the given components.
    pub fn new(x: Fx, y: Fx, z: Fx) -> (r: Vec3)
        ensures
            r == (Vec3 { x, y, z }),
    {
        Vec3 { x, y, z }
    }

    /// The zero vector.
    pub fn zero() -> (r: Vec3)
        ensures
            r == (Vec3 { x: Fx { raw: 0 }, y: Fx { raw: 0 }, z: Fx { raw: 0 } }),
    {
        Vec3 { x: Fx { raw: 0 }, y: Fx { raw: 0 }, z: Fx { raw: 0 } }
    }

    /// Componentwise addition.
    pub fn add(self, o: Vec3) -> (r: Vec3)
        ensures
            r == v_add(self, o),
    {
        Vec3 { x: self.x.add(o.x), y: self.y.add(o.y), z: self.z.add(o.z) }
    }

    /// Componentwise subtraction.
    pub fn sub(self, o: Vec3) -> (r: Vec3)
        ensures
            r == v_sub(self, o),
    {
        Vec3 { x: self.x.sub(o.x), y: self.y.sub(o.y), z: self.z.sub(o.z) }
    }

    /// Componentwise negation.
    pub fn neg(self) -> (r: Vec3)
        ensures
            r == v_neg(self),
    {
        Vec3 { x: self.x.neg(), y: self.y.neg(), z: self.z.neg() }
    }

    /// Multiplication by a scalar.
    pub fn scale(self, k: Fx) -> (r: Vec3)
        ensures
            r == v_scale(self, k),
    {
        Vec3 { x: self.x.mul(k), y: self.y.mul(k), z: self.z.mul(k) }
    }

    /// Division by a scalar, componentwise.
    pub fn div_s(self, k: Fx) -> (r: Vec3)
        ensures
            r == v_div_s(self, k),
    {
        Vec3 { x: self.x.div(k), y: self.y.div(k), z: self.z.div(k) }
    }

    /// Dot product.
    pub fn dot(self, o: Vec3) -> (r: Fx)
        ensures
            r.raw as int == v_dot(self, o),
    {
        self.x.mul(o.x).add(self.y.mul(o.y)).add(self.z.mul(o.z))
    }

    /// Cross product.
    pub fn cross(self, o: Vec3) -> (r: Vec3)
        ensures
            r == v_cross(self, o),
    {
        Vec3 {
            x: self.y.mul(o.z).sub(self.z.mul(o.y)),
            y: self.z.mul(o.x).sub(self.x.mul(o.z)),
            z: self.x.mul(o.y).sub(self.y.mul(o.x)),
        }
    }

    /// Squared length.
    pub fn norm2(self) -> (r: Fx)
        ensures
            r.raw as int == v_norm2(self),
    {
        self.dot(self)
    }

    /// Squared distance to another point.
    pub fn dist2(self, o: Vec3) -> (r: Fx)
        ensures
            r.raw as int == v_dist2(self, o),
    {
        self.sub(o).norm2()
    }

    /// Length.
    pub fn len(self) -> (r: Fx)
        ensures
            r.raw as int == v_len(self),
    {
        self.norm2().sqrt()
    }

    /// Scale to unit length; degenerate vectors come back unchanged.
    pub fn normalize(self) -> (r: Vec3)
        ensures
            r == v_normalize(self),
    {
        let l = self.len();
        if l.raw == 0 {
            self
        } else {
            Vec3 { x: self.x.div(l), y: self.y.div(l), z: self.z.div(l) }
        }
    }
}

} // verus!
