//! Metallic (mirror) scattering with a fuzz perturbation.

use vstd::prelude::*;
use crate::fixed::{Fx, FX_ONE};
use crate::vec3::{Vec3, vadd, vscale};
use crate::interval::Interval;
use crate::ray::Ray;
use crate::ray_hit::RayHit;
use crate::rng::Rng;
use crate::material::{
    Scatter, reflect_spec, reflect, random_unit_vector, unit_sample_spec, is_unit_sample,
};

verus! {

/// A reflective surface with an albedo and a fuzz factor in [0, 1].
#[derive(Clone, Copy, Debug)]
pub struct Metal {
    pub albedo: Vec3,
    pub fuzz_factor: Fx,
}

/// The direction a metallic surface scatters into when its generator is at
/// state `s`: the mirror reflection perturbed by `fuzz` times a fresh unit
/// sample.
pub open spec fn metal_direction_spec(incoming: Vec3, normal: Vec3, fuzz: Fx, s: u64) -> Vec3 {
    vadd(reflect_spec(incoming, normal), vscale(fuzz, unit_sample_spec(s, 64).0))
}

impl Metal {
    /// The fuzz factor is clamped into [0, 1] at construction.
    pub fn new(color: Vec3, fuzz_factor: Fx) -> (r: Metal)
        ensures
            r.albedo == color,
            r.fuzz_factor.m == if fuzz_factor.m < 0 {
                0int
            } else if fuzz_factor.m > FX_ONE {
                FX_ONE as int
            } else {
                fuzz_factor.m as int
            },
            0 <= r.fuzz_factor.m <= FX_ONE,
    {
        let valid_fuzz = Interval::new(Fx::zero(), Fx::one());
        Metal { albedo: color, fuzz_factor: valid_fuzz.clamp(fuzz_factor) }
    }

    /// Scatters along the mirror reflection of the incoming direction,
    /// perturbed by `fuzz * u` for a fresh unit-sphere sample `u`; even a
    /// perturbed direction below the surface is accepted. Never fails to
    /// scatter; the attenuation is the albedo.
    pub fn scatter(&self, ray: &Ray, hit: &RayHit, rng: &mut Rng) -> (r: Scatter)
        ensures
            r.ray.origin == hit.position,
            r.attenuation == self.albedo,
            r.ray.direction == metal_direction_spec(
                ray.direction,
                hit.normal,
                self.fuzz_factor,
                old(rng).state,
            ),
            final(rng).state == unit_sample_spec(old(rng).state, 64).1,
            (exists|u: Vec3|
                is_unit_sample(u) && r.ray.direction == vadd(
                    reflect_spec(ray.direction, hit.normal),
                    #[trigger] vscale(self.fuzz_factor, u),
                )),
    {
        let scatter_direction = reflect(&ray.direction, &hit.normal);
        let unit = random_unit_vector(rng);
        let fuzzed_direction = scatter_direction.add(unit.scale(self.fuzz_factor));
        proof {
            assert(fuzzed_direction == vadd(
                reflect_spec(ray.direction, hit.normal),
                vscale(self.fuzz_factor, unit),
            ));
        }
        Scatter { ray: Ray::new(hit.position, fuzzed_direction), attenuation: self.albedo }
    }
}

} // verus!
