//! Dielectric (glass) scattering: reflect or refract by total internal
//! reflection and Schlick's approximation.

use vstd::prelude::*;
use crate::fixed::{Fx, FX_ONE, fx_mul_m};
use crate::vec3::{Vec3, fx, vmag2_m};
use crate::ray::Ray;
use crate::ray_hit::{RayHit, HitType};
use crate::rng::Rng;
use crate::material::{
    Scatter, reflect_spec, refract_spec, cos_theta_spec, reflectance_spec, reflect, refract,
    reflectance,
};

verus! {

/// A transparent surface with an albedo tint and an index of refraction.
#[derive(Clone, Copy, Debug)]
pub struct Dielectric {
    pub albedo: Vec3,
    pub index_of_refraction: Fx,
}

/// The index-of-refraction ratio seen by a hit: the reciprocal when the ray
/// enters the surface, the index itself when it exits.
pub open spec fn ior_fraction_spec(d: Dielectric, hit_type: HitType) -> Fx {
    match hit_type {
        HitType::FrontFace => fx(crate::fixed::fx_div_m(FX_ONE as int, d.index_of_refraction.m as int)),
        HitType::BackFace => d.index_of_refraction,
    }
}

/// Total internal reflection is forced when `ior * sin(theta) > 1`, with
/// `sin(theta) = sqrt(1 - cos(theta)^2)`.
pub open spec fn must_reflect_spec(d: Dielectric, incoming: Vec3, hit: RayHit) -> bool {
    let ior = ior_fraction_spec(d, hit.hit_type);
    let cos_theta = cos_theta_spec(incoming, hit.normal);
    let sin_theta = crate::fixed::fx_sqrt_m(
        crate::fixed::fx_sub_m(FX_ONE as int, fx_mul_m(cos_theta.m as int, cos_theta.m as int)),
    );
    fx_mul_m(ior.m as int, sin_theta) > FX_ONE
}

/// The uniform draw in [0, 1) a dielectric interaction makes at state `s`.
pub open spec fn dielectric_draw_m(s: u64) -> int {
    crate::rng::range_draw_m(s, Fx { m: 0 }, Fx { m: FX_ONE })
}

/// The direction a dielectric surface scatters into when its generator is
/// at state `s`: the mirror reflection under total internal reflection or
/// when Schlick's reflectance exceeds the draw, the refraction otherwise.
pub open spec fn dielectric_direction_spec(d: Dielectric, incoming: Vec3, hit: RayHit, s: u64)
    -> Vec3 {
    let ior = ior_fraction_spec(d, hit.hit_type);
    if must_reflect_spec(d, incoming, hit) || reflectance_spec(
        cos_theta_spec(incoming, hit.normal),
        ior,
    ).m > dielectric_draw_m(s) {
        reflect_spec(incoming, hit.normal)
    } else {
        refract_spec(incoming, hit.normal, ior)
    }
}

impl Dielectric {
    pub fn new(color: Vec3, index_of_refraction: Fx) -> (r: Dielectric)
        ensures
            r.albedo == color,
            r.index_of_refraction == index_of_refraction,
    {
        Dielectric { albedo: color, index_of_refraction }
    }

    /// Reflects under total internal reflection, otherwise reflects with
    /// probability given by Schlick's approximation and refracts with the
    /// complementary probability. Never fails to scatter; the attenuation
    /// is the albedo tint.
    pub fn scatter(&self, ray: &Ray, hit: &RayHit, rng: &mut Rng) -> (r: Scatter)
        ensures
            r.ray.origin == hit.position,
            r.attenuation == self.albedo,
            r.ray.direction == dielectric_direction_spec(
                *self,
                ray.direction,
                *hit,
                old(rng).state,
            ),
            final(rng).state == crate::rng::lcg_next(old(rng).state),
            r.ray.direction == reflect_spec(ray.direction, hit.normal) || r.ray.direction
                == refract_spec(
                ray.direction,
                hit.normal,
                ior_fraction_spec(*self, hit.hit_type),
            ),
            must_reflect_spec(*self, ray.direction, *hit) ==> r.ray.direction == reflect_spec(
                ray.direction,
                hit.normal,
            ),
    {
        let one = Fx::one();
        let ior_fraction = match hit.hit_type {
            HitType::FrontFace => one.div(self.index_of_refraction),
            HitType::BackFace => self.index_of_refraction,
        };

        let d = ray.direction.dot(hit.normal).neg();
        let cos_theta = if d.m < one.m {
            d
        } else {
            one
        };
        let sin_theta = one.sub(cos_theta.mul(cos_theta)).sqrt();
        let must_reflect = ior_fraction.mul(sin_theta).m > one.m;

        let reflect_chance = rng.next_range(Fx::zero(), one);
        let reflect_probability = reflectance(cos_theta, ior_fraction);

        let ray_direction = if must_reflect || reflect_probability.m > reflect_chance.m {
            reflect(&ray.direction, &hit.normal)
        } else {
            refract(&ray.direction, &hit.normal, ior_fraction)
        };

        Scatter { ray: Ray::new(hit.position, ray_direction), attenuation: self.albedo }
    }
}

} // verus!
