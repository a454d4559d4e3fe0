//! Three-component vectors over the fixed-point scalar.
//!
//! Points, directions and colors all use [`Vec3`]. Every operation has a
//! specification-level twin (`vadd`, `vdot`, ...) that states the exact
//! mantissa arithmetic, so contracts further up the pipeline can pin results
//! down to the bit.

use vstd::prelude::*;
use crate::fixed::{Fx, fx_add_m, fx_sub_m, fx_neg_m, fx_mul_m, fx_div_m, fx_sqrt_m};

verus! {

/// A vector of three fixed-point scalars.
#[derive(Clone, Copy, Debug, PartialEq, Eq, Structural)]
pub struct Vec3 {
    pub x: Fx,
    pub y: Fx,
    pub z: Fx,
}

/// Builds a scalar from a mantissa already known to be in range.
pub open spec fn fx(m: int) -> Fx {
    Fx { m: m as i64 }
}

/// Componentwise sum.
pub open spec fn vadd(a: Vec3, b: Vec3) -> Vec3 {
    Vec3 {
        x: fx(fx_add_m(a.x.m as int, b.x.m as int)),
        y: fx(fx_add_m(a.y.m as int, b.y.m as int)),
        z: fx(fx_add_m(a.z.m as int, b.z.m as int)),
    }
}

/// Componentwise difference.
pub open spec fn vsub(a: Vec3, b: Vec3) -> Vec3 {
    Vec3 {
        x: fx(fx_sub_m(a.x.m as int, b.x.m as int)),
        y: fx(fx_sub_m(a.y.m as int, b.y.m as int)),
        z: fx(fx_sub_m(a.z.m as int, b.z.m as int)),
    }
}

/// Componentwise negation.
pub open spec fn vneg(a: Vec3) -> Vec3 {
    Vec3 {
        x: fx(fx_neg_m(a.x.m as int)),
        y: fx(fx_neg_m(a.y.m as int)),
        z: fx(fx_neg_m(a.z.m as int)),
    }
}

/// Scaling by a scalar.
pub open spec fn vscale(t: Fx, a: Vec3) -> Vec3 {
    Vec3 {
        x: fx(fx_mul_m(t.m as int, a.x.m as int)),
        y: fx(fx_mul_m(t.m as int, a.y.m as int)),
        z: fx(fx_mul_m(t.m as int, a.z.m as int)),
    }
}

/// Componentwise product, the color attenuation operation.
pub open spec fn vmul(a: Vec3, b: Vec3) -> Vec3 {
    Vec3 {
        x: fx(fx_mul_m(a.x.m as int, b.x.m as int)),
        y: fx(fx_mul_m(a.y.m as int, b.y.m as int)),
        z: fx(fx_mul_m(a.z.m as int, b.z.m as int)),
    }
}

/// Componentwise division by a scalar.
pub open spec fn vdiv(a: Vec3, t: Fx) -> Vec3 {
    Vec3 {
        x: fx(fx_div_m(a.x.m as int, t.m as int)),
        y: fx(fx_div_m(a.y.m as int, t.m as int)),
        z: fx(fx_div_m(a.z.m as int, t.m as int)),
    }
}

/// Mantissa of the dot product, summed left to right.
pub open spec fn vdot_m(a: Vec3, b: Vec3) -> int {
    fx_add_m(
        fx_add_m(fx_mul_m(a.x.m as int, b.x.m as int), fx_mul_m(a.y.m as int, b.y.m as int)),
        fx_mul_m(a.z.m as int, b.z.m as int),
    )
}

/// Mantissa of the squared magnitude.
pub open spec fn vmag2_m(a: Vec3) -> int {
    vdot_m(a, a)
}

/// Mantissa of the magnitude.
pub open spec fn vmag_m(a: Vec3) -> int {
    fx_sqrt_m(vmag2_m(a))
}

/// The normalized vector: each component divided by the magnitude.
pub open spec fn vnormalize(a: Vec3) -> Vec3 {
    vdiv(a, fx(vmag_m(a)))
}

/// Cross product.
pub open spec fn vcross(a: Vec3, b: Vec3) -> Vec3 {
    Vec3 {
        x: fx(
            fx_sub_m(fx_mul_m(a.y.m as int, b.z.m as int), fx_mul_m(a.z.m as int, b.y.m as int)),
        ),
        y: fx(
            fx_sub_m(fx_mul_m(a.z.m as int, b.x.m as int), fx_mul_m(a.x.m as int, b.z.m as int)),
        ),
        z: fx(
            fx_sub_m(fx_mul_m(a.x.m as int, b.y.m as int), fx_mul_m(a.y.m as int, b.x.m as int)),
        ),
    }
}

/// A squared magnitude is never negative.
pub proof fn lemma_vmag2_m_nonneg(a: Vec3)
    ensures
        vmag2_m(a) >= 0,
{
    crate::fixed::lemma_mul_m_nonneg_square(a.x.m as int);
    crate::fixed::lemma_mul_m_nonneg_square(a.y.m as int);
    crate::fixed::lemma_mul_m_nonneg_square(a.z.m as int);
}

impl Vec3 {
    pub fn new(x: Fx, y: Fx, z: Fx) -> (r: Vec3)
        ensures
            r == (Vec3 { x, y, z }),
    {
        Vec3 { x, y, z }
    }

    /// Vector whose components are the given integers.
    pub fn from_ints(x: i64, y: i64, z: i64) -> (r: Vec3)
        ensures
            r == (Vec3 { x: Fx::from_int_spec(x), y: Fx::from_int_spec(y), z: Fx::from_int_spec(z) }),
    {
        Vec3 { x: Fx::from_int(x), y: Fx::from_int(y), z: Fx::from_int(z) }
    }

    /// The zero vector.
    pub fn zeros() -> (r: Vec3)
        ensures
            r == (Vec3 { x: fx(0), y: fx(0), z: fx(0) }),
    {
        Vec3 { x: Fx::zero(), y: Fx::zero(), z: Fx::zero() }
    }

    pub fn add(self, o: Vec3) -> (r: Vec3)
        ensures
            r == vadd(self, o),
    {
        Vec3 { x: self.x.add(o.x), y: self.y.add(o.y), z: self.z.add(o.z) }
    }

    pub fn sub(self, o: Vec3) -> (r: Vec3)
        ensures
            r == vsub(self, o),
    {
        Vec3 { x: self.x.sub(o.x), y: self.y.sub(o.y), z: self.z.sub(o.z) }
    }

    pub fn neg(self) -> (r: Vec3)
        ensures
            r == vneg(self),
    {
        Vec3 { x: self.x.neg(), y: self.y.neg(), z: self.z.neg() }
    }

    pub fn scale(self, t: Fx) -> (r: Vec3)
        ensures
            r == vscale(t, self),
    {
        Vec3 { x: t.mul(self.x), y: t.mul(self.y), z: t.mul(self.z) }
    }

    pub fn component_mul(self, o: Vec3) -> (r: Vec3)
        ensures
            r == vmul(self, o),
    {
        Vec3 { x: self.x.mul(o.x), y: self.y.mul(o.y), z: self.z.mul(o.z) }
    }

    pub fn div_scalar(self, t: Fx) -> (r: Vec3)
        ensures
            r == vdiv(self, t),
    {
        Vec3 { x: self.x.div(t), y: self.y.div(t), z: self.z.div(t) }
    }

    pub fn dot(self, o: Vec3) -> (r: Fx)
        ensures
            r.m == vdot_m(self, o),
    {
        self.x.mul(o.x).add(self.y.mul(o.y)).add(self.z.mul(o.z))
    }

    pub fn magnitude_squared(self) -> (r: Fx)
        ensures
            r.m == vmag2_m(self),
    {
        self.dot(self)
    }

    pub fn magnitude(self) -> (r: Fx)
        ensures
            r.m == vmag_m(self),
    {
        self.magnitude_squared().sqrt()
    }

    pub fn normalize(self) -> (r: Vec3)
        ensures
            r == vnormalize(self),
    {
        self.div_scalar(self.magnitude())
    }

    pub fn cross(self, o: Vec3) -> (r: Vec3)
        ensures
            r == vcross(self, o),
    {
        Vec3 {
            x: self.y.mul(o.z).sub(self.z.mul(o.y)),
            y: self.z.mul(o.x).sub(self.x.mul(o.z)),
            z: self.x.mul(o.y).sub(self.y.mul(o.x)),
        }
    }
}

} // verus!
