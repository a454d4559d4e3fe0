//! Sphere intersection by the half-b quadratic form.

use vstd::prelude::*;
use crate::fixed::{
    Fx, fx_add_m, fx_sub_m, fx_neg_m, fx_mul_m, fx_div_m, fx_sqrt_m, lemma_fx_sqrt_m_is_sqrt,
    lemma_div_m_ordered,
};
use crate::vec3::{Vec3, fx, vsub, vneg, vdiv, vdot_m, vmag2_m, lemma_vmag2_m_nonneg};
use crate::interval::Interval;
use crate::ray::Ray;
use crate::ray_hit::{RayHit, ray_hit_spec};
use crate::material::Material;
use crate::primitive::{Primitive, Hittable, HittablePrimitive};

verus! {

/// A sphere: a center position, a radius, and an owned material. The
/// squared radius is precomputed at construction.
#[derive(Clone, Copy, Debug)]
pub struct Sphere {
    pub position: Vec3,
    pub radius: Fx,
    pub radius_squared: Fx,
    pub material: Material,
}

/// The hit a sphere reports: solve `|O + tD - C|^2 = r^2` in the half-b
/// form, take the smaller root if the interval surrounds it, otherwise the
/// larger root (the ray may start inside the sphere), otherwise nothing.
pub open spec fn sphere_hit_spec(s: Sphere, ray: Ray, interval: Interval) -> Option<RayHit> {
    let oc = vsub(ray.origin, s.position);
    let a = vmag2_m(ray.direction);
    let half_b = vdot_m(oc, ray.direction);
    let c = fx_sub_m(vmag2_m(oc), s.radius_squared.m as int);
    let discriminant = fx_sub_m(fx_mul_m(half_b, half_b), fx_mul_m(a, c));
    if discriminant < 0 {
        None
    } else {
        let sq = fx_sqrt_m(discriminant);
        let t1 = fx(fx_div_m(fx_sub_m(fx_neg_m(half_b), sq), a));
        let t2 = fx(fx_div_m(fx_add_m(fx_neg_m(half_b), sq), a));
        if interval.surrounds_spec(t1) {
            Some(ray_hit_spec(t1, ray.at_spec(t1), ray, s))
        } else if interval.surrounds_spec(t2) {
            Some(ray_hit_spec(t2, ray.at_spec(t2), ray, s))
        } else {
            None
        }
    }
}

impl Sphere {
    pub fn new(position: Vec3, radius: Fx, material: Material) -> (r: Sphere)
        ensures
            r.position == position,
            r.radius == radius,
            r.radius_squared.m == fx_mul_m(radius.m as int, radius.m as int),
            r.material == material,
    {
        Sphere { position, radius, radius_squared: radius.mul(radius), material }
    }

    pub fn hit(&self, ray: &Ray, interval: &Interval) -> (r: Option<RayHit>)
        ensures
            r == sphere_hit_spec(*self, *ray, *interval),
            r matches Some(h) ==> interval.surrounds_spec(h.depth),
    {
        let oc = ray.origin().sub(self.position);
        let a = ray.direction().magnitude_squared();
        let half_b = oc.dot(*ray.direction());
        let c = oc.magnitude_squared().sub(self.radius_squared);

        let discriminant = half_b.mul(half_b).sub(a.mul(c));
        if discriminant.m < 0 {
            return None;
        }

        let sq = discriminant.sqrt();
        let mut depth = half_b.neg().sub(sq).div(a);
        if !interval.surrounds(depth) {
            // The smaller root failed: the ray may start inside the sphere,
            // so try the larger root before giving up.
            depth = half_b.neg().add(sq).div(a);
            if !interval.surrounds(depth) {
                return None;
            }
        }

        let position = ray.at(depth);
        Some(RayHit::new(depth, position, ray, self))
    }
}

impl Primitive for Sphere {
    /// The outward normal: `(location - center) / radius`.
    open spec fn normal_spec(&self, location: Vec3) -> Vec3 {
        vdiv(vsub(location, self.position), self.radius)
    }

    open spec fn inverted_normal_spec(&self, location: Vec3) -> Vec3 {
        vneg(self.normal_spec(location))
    }

    open spec fn material_spec(&self) -> Material {
        self.material
    }

    fn normal(&self, location: &Vec3) -> Vec3 {
        location.sub(self.position).div_scalar(self.radius)
    }

    fn inverted_normal(&self, location: &Vec3) -> Vec3 {
        self.normal(location).neg()
    }

    fn material(&self) -> &Material {
        &self.material
    }
}

impl Hittable for Sphere {
    fn hit(&self, ray: &Ray, interval: &Interval) -> Option<RayHit> {
        self.hit(ray, interval)
    }
}

impl HittablePrimitive for Sphere {

}

/// Narrowing the upper bound of the interval keeps exactly the sphere hits
/// that fall below the new bound.
pub proof fn lemma_sphere_hit_narrow(s: Sphere, ray: Ray, interval: Interval, closer: Fx)
    requires
        closer.m <= interval.1.m,
    ensures
        sphere_hit_spec(s, ray, Interval(interval.0, closer)) == (match sphere_hit_spec(
            s,
            ray,
            interval,
        ) {
            Some(h) => if h.depth.m < closer.m {
                Some(h)
            } else {
                None::<RayHit>
            },
            None => None::<RayHit>,
        }),
{
    let oc = vsub(ray.origin, s.position);
    let a = vmag2_m(ray.direction);
    let half_b = vdot_m(oc, ray.direction);
    let c = fx_sub_m(vmag2_m(oc), s.radius_squared.m as int);
    let discriminant = fx_sub_m(fx_mul_m(half_b, half_b), fx_mul_m(a, c));
    if discriminant >= 0 {
        let sq = fx_sqrt_m(discriminant);
        lemma_fx_sqrt_m_is_sqrt(discriminant);
        lemma_vmag2_m_nonneg(ray.direction);
        let n1 = fx_sub_m(fx_neg_m(half_b), sq);
        let n2 = fx_add_m(fx_neg_m(half_b), sq);
        lemma_div_m_ordered(n1, n2, a);
    }
}

} // verus!
