//! A parametrized line through space.

use vstd::prelude::*;
use crate::fixed::{Fx, FX_ONE, fx_mul_m, fx_neg_m, lemma_mul_m_one};
use crate::vec3::{Vec3, vadd, vscale};

verus! {

/// A ray: an origin point and a direction vector. The direction is not
/// required to be unit length at construction; the camera and the
/// integrator normalize directions before use.
#[derive(Debug, Clone, Copy)]
pub struct Ray {
    pub origin: Vec3,
    pub direction: Vec3,
}

impl Ray {
    pub fn new(origin: Vec3, direction: Vec3) -> (r: Ray)
        ensures
            r.origin == origin,
            r.direction == direction,
    {
        Ray { origin, direction }
    }

    /// The point `origin + t * direction`.
    pub open spec fn at_spec(self, t: Fx) -> Vec3 {
        vadd(self.origin, vscale(t, self.direction))
    }

    pub fn at(&self, t: Fx) -> (r: Vec3)
        ensures
            r == self.at_spec(t),
    {
        self.origin.add(self.direction.scale(t))
    }

    pub fn origin(&self) -> (r: &Vec3)
        ensures
            *r == self.origin,
    {
        &self.origin
    }

    pub fn direction(&self) -> (r: &Vec3)
        ensures
            *r == self.direction,
    {
        &self.direction
    }
}

/// Multiplying a mantissa by the scalar -1 is an exact negation.
pub proof fn lemma_mul_m_neg_one(a: int)
    requires
        i64::MIN <= a <= i64::MAX,
    ensures
        fx_mul_m(a, -(FX_ONE as int)) == fx_neg_m(a),
{
    assert(a * -65536 == -(a * 65536)) by (nonlinear_arith) {}
    if a >= 0 {
        assert((a * 65536) / 65536 == a) by (nonlinear_arith)
            requires
                a >= 0,
        {}
    } else {
        assert(((-(a * 65536)) / 65536) == -a) by (nonlinear_arith)
            requires
                a < 0,
        {}
    }
}

/// `ray.at(t)` is exactly `origin + t * direction`, with no rounding at all,
/// whenever the direction is an axis-aligned unit vector and the mantissas
/// stay far from the saturation bounds.
pub proof fn lemma_at_exact_axis_aligned(ray: Ray, t: Fx)
    requires
        ray.direction.x.m == 0 || ray.direction.x.m == FX_ONE || ray.direction.x.m == -FX_ONE,
        ray.direction.y.m == 0 || ray.direction.y.m == FX_ONE || ray.direction.y.m == -FX_ONE,
        ray.direction.z.m == 0 || ray.direction.z.m == FX_ONE || ray.direction.z.m == -FX_ONE,
        -0x2000_0000_0000_0000 < t.m < 0x2000_0000_0000_0000,
        -0x2000_0000_0000_0000 < ray.origin.x.m < 0x2000_0000_0000_0000,
        -0x2000_0000_0000_0000 < ray.origin.y.m < 0x2000_0000_0000_0000,
        -0x2000_0000_0000_0000 < ray.origin.z.m < 0x2000_0000_0000_0000,
    ensures
        ray.at_spec(t).x.m == ray.origin.x.m + t.m * ((ray.direction.x.m as int) / (FX_ONE as int)),
        ray.at_spec(t).y.m == ray.origin.y.m + t.m * ((ray.direction.y.m as int) / (FX_ONE as int)),
        ray.at_spec(t).z.m == ray.origin.z.m + t.m * ((ray.direction.z.m as int) / (FX_ONE as int)),
{
    lemma_axis_component(ray.origin.x.m as int, ray.direction.x.m as int, t.m as int);
    lemma_axis_component(ray.origin.y.m as int, ray.direction.y.m as int, t.m as int);
    lemma_axis_component(ray.origin.z.m as int, ray.direction.z.m as int, t.m as int);
}

/// One component of the axis-aligned exactness argument.
proof fn lemma_axis_component(o: int, d: int, t: int)
    requires
        d == 0 || d == FX_ONE || d == -FX_ONE,
        -0x2000_0000_0000_0000 < t < 0x2000_0000_0000_0000,
        -0x2000_0000_0000_0000 < o < 0x2000_0000_0000_0000,
    ensures
        crate::fixed::fx_add_m(o, fx_mul_m(t, d)) == o + t * (d / (FX_ONE as int)),
{
    if d == FX_ONE {
        lemma_mul_m_one(t);
        assert(d / (FX_ONE as int) == 1);
    } else if d == -FX_ONE {
        lemma_mul_m_neg_one(t);
        assert(d / (FX_ONE as int) == -1);
        assert(t * -1 == -t) by (nonlinear_arith) {}
    } else {
        crate::fixed::lemma_mul_m_zero(t);
        assert(t * 0 == 0) by (nonlinear_arith) {}
    }
}

} // verus!
