//! Lambertian diffuse scattering.

use vstd::prelude::*;
use crate::vec3::{Vec3, vadd};
use crate::ray::Ray;
use crate::ray_hit::RayHit;
use crate::rng::Rng;
use crate::material::{
    Scatter, near_zero_spec, near_zero, random_unit_vector, unit_sample_spec, is_unit_sample,
};

verus! {

/// A diffuse surface with a constant albedo.
#[derive(Clone, Copy, Debug)]
pub struct LambertianDiffuse {
    pub albedo: Vec3,
}

/// The direction a Lambertian surface scatters into when its generator is
/// at state `s`: the normal plus a fresh unit sample, or the normal itself
/// when that sum is degenerate.
pub open spec fn lambertian_direction_spec(normal: Vec3, s: u64) -> Vec3 {
    let u = unit_sample_spec(s, 64).0;
    if near_zero_spec(vadd(normal, u)) {
        normal
    } else {
        vadd(normal, u)
    }
}

impl LambertianDiffuse {
    pub fn new(color: Vec3) -> (r: LambertianDiffuse)
        ensures
            r.albedo == color,
    {
        LambertianDiffuse { albedo: color }
    }

    /// Scatters toward `normal + u` for a fresh unit-sphere sample `u`,
    /// falling back to the surface normal when that sum is degenerate.
    /// Never fails to scatter; the attenuation is the albedo.
    pub fn scatter(&self, _ray: &Ray, hit: &RayHit, rng: &mut Rng) -> (r: Scatter)
        ensures
            r.ray.origin == hit.position,
            r.attenuation == self.albedo,
            r.ray.direction == lambertian_direction_spec(hit.normal, old(rng).state),
            final(rng).state == unit_sample_spec(old(rng).state, 64).1,
            (exists|u: Vec3|
                is_unit_sample(u) && r.ray.direction == if near_zero_spec(
                    #[trigger] vadd(hit.normal, u),
                ) {
                    hit.normal
                } else {
                    vadd(hit.normal, u)
                }),
    {
        let unit = random_unit_vector(rng);
        let candidate = hit.normal.add(unit);
        let scatter_direction = if near_zero(&candidate) {
            hit.normal
        } else {
            candidate
        };
        proof {
            assert(scatter_direction == if near_zero_spec(vadd(hit.normal, unit)) {
                hit.normal
            } else {
                vadd(hit.normal, unit)
            });
        }
        Scatter { ray: Ray::new(hit.position, scatter_direction), attenuation: self.albedo }
    }
}

} // verus!
