//! Probabilistic material models and their shared scattering helpers.
//!
//! The four materials form a closed set of tagged variants dispatched
//! through [`Material`]: Lambertian diffuse, fuzzed metal, Schlick-driven
//! dielectric, and a purely emissive surface that never scatters.

pub mod diffuse;
pub mod metal;
pub mod dielectric;
pub mod emissive;

use vstd::prelude::*;
use crate::fixed::{Fx, FX_ONE, fx_mul_m, fx_sub_m, fx_add_m, fx_neg_m, fx_sqrt_m};
use crate::vec3::{Vec3, fx, vadd, vsub, vscale, vdot_m, vmag2_m, vnormalize};
use crate::ray::Ray;
use crate::ray_hit::RayHit;
use crate::rng::{Rng, lcg_next, lcg_next3, range_draw_m};
use self::diffuse::LambertianDiffuse;
use self::metal::Metal;
use self::dielectric::Dielectric;
use self::emissive::Emissive;

verus! {

/// The result of a material interaction: an outgoing ray and a per-channel
/// color attenuation.
pub struct Scatter {
    pub ray: Ray,
    pub attenuation: Vec3,
}

/// Whether a surface receives direct-light (shadow ray) contributions.
/// Opaque materials do; transparent ones are assumed to transmit all
/// incident light and skip shadow sampling.
#[derive(Clone, Copy, Debug, PartialEq, Eq, Structural)]
pub enum MaterialTransparency {
    Opaque,
    Transparent,
}

/// A material, one of the closed set of scattering models.
#[derive(Clone, Copy, Debug)]
pub enum Material {
    Lambertian(LambertianDiffuse),
    Metallic(Metal),
    Glass(Dielectric),
    Emitter(Emissive),
}

/// The vector is indistinguishable from zero at the representation's
/// resolution: every component has a zero mantissa.
pub open spec fn near_zero_spec(v: Vec3) -> bool {
    v.x.m == 0 && v.y.m == 0 && v.z.m == 0
}

/// Mirror reflection of `incoming` about `normal`:
/// `incoming - 2 * dot(incoming, normal) * normal`.
pub open spec fn reflect_spec(incoming: Vec3, normal: Vec3) -> Vec3 {
    vsub(incoming, vscale(fx(fx_mul_m(2 * (FX_ONE as int), vdot_m(incoming, normal))), normal))
}

/// Cosine term of a dielectric interaction: `min(-dot(incoming, normal), 1)`.
pub open spec fn cos_theta_spec(incoming: Vec3, normal: Vec3) -> Fx {
    let d = fx(fx_neg_m(vdot_m(incoming, normal)));
    if d.m < FX_ONE {
        d
    } else {
        fx(FX_ONE as int)
    }
}

/// Refraction of `incoming` through a surface with the given
/// index-of-refraction ratio, by the perpendicular/parallel decomposition.
pub open spec fn refract_spec(incoming: Vec3, normal: Vec3, ior_fraction: Fx) -> Vec3 {
    let cos_theta = cos_theta_spec(incoming, normal);
    let out_perpendicular = vscale(ior_fraction, vadd(incoming, vscale(cos_theta, normal)));
    let par_len_sq = fx_sub_m(FX_ONE as int, vmag2_m(out_perpendicular));
    let par_abs = if par_len_sq < 0 {
        fx_neg_m(par_len_sq)
    } else {
        par_len_sq
    };
    let out_parallel_scale = fx(fx_neg_m(fx_sqrt_m(par_abs)));
    vadd(out_perpendicular, vscale(out_parallel_scale, normal))
}

/// Schlick's approximation for reflectance:
/// `r0 + (1 - r0) * (1 - cos)^5` with `r0 = ((1 - ior) / (1 + ior))^2`.
pub open spec fn reflectance_spec(cos_angle: Fx, ior_fraction: Fx) -> Fx {
    let r0_base = fx(
        crate::fixed::fx_div_m(
            fx_sub_m(FX_ONE as int, ior_fraction.m as int),
            fx_add_m(FX_ONE as int, ior_fraction.m as int),
        ),
    );
    let r0 = fx(fx_mul_m(r0_base.m as int, r0_base.m as int));
    let one_minus_cos = fx(fx_sub_m(FX_ONE as int, cos_angle.m as int));
    let p2 = fx(fx_mul_m(one_minus_cos.m as int, one_minus_cos.m as int));
    let p3 = fx(fx_mul_m(p2.m as int, one_minus_cos.m as int));
    let p4 = fx(fx_mul_m(p3.m as int, one_minus_cos.m as int));
    let p5 = fx(fx_mul_m(p4.m as int, one_minus_cos.m as int));
    fx(fx_add_m(r0.m as int, fx_mul_m(fx_sub_m(FX_ONE as int, r0.m as int), p5.m as int)))
}

/// The direction a scattering material sends the path into when its
/// generator is at state `s`. An emitter never scatters; its branch is
/// never reached and keeps the incoming direction.
pub open spec fn scatter_direction_spec(m: Material, ray: Ray, hit: RayHit, s: u64) -> Vec3 {
    match m {
        Material::Lambertian(_) => crate::material::diffuse::lambertian_direction_spec(
            hit.normal,
            s,
        ),
        Material::Metallic(mm) => crate::material::metal::metal_direction_spec(
            ray.direction,
            hit.normal,
            mm.fuzz_factor,
            s,
        ),
        Material::Glass(g) => crate::material::dielectric::dielectric_direction_spec(
            g,
            ray.direction,
            hit,
            s,
        ),
        Material::Emitter(_) => ray.direction,
    }
}

/// The generator state after a material interaction that started at `s`.
pub open spec fn scatter_state_spec(m: Material, s: u64) -> u64 {
    match m {
        Material::Lambertian(_) => unit_sample_spec(s, 64).1,
        Material::Metallic(_) => unit_sample_spec(s, 64).1,
        Material::Glass(_) => lcg_next(s),
        Material::Emitter(_) => s,
    }
}

impl Material {
    /// The material's transparency class: only glass transmits.
    pub open spec fn transparency_spec(self) -> MaterialTransparency {
        match self {
            Material::Glass(_) => MaterialTransparency::Transparent,
            _ => MaterialTransparency::Opaque,
        }
    }

    pub fn material_transparency(&self) -> (r: MaterialTransparency)
        ensures
            r == self.transparency_spec(),
    {
        match self {
            Material::Glass(_) => MaterialTransparency::Transparent,
            _ => MaterialTransparency::Opaque,
        }
    }

    /// Emitted radiance: `color * strength` for an emissive surface, zero
    /// for every other material.
    pub open spec fn emit_spec(self) -> Vec3 {
        match self {
            Material::Emitter(e) => vscale(e.strength, e.color),
            _ => Vec3 { x: fx(0), y: fx(0), z: fx(0) },
        }
    }

    pub fn emit(&self) -> (r: Vec3)
        ensures
            r == self.emit_spec(),
    {
        match self {
            Material::Emitter(e) => e.emit(),
            _ => Vec3::zeros(),
        }
    }

    /// Whether this material always produces a scatter.
    pub open spec fn always_scatters(self) -> bool {
        !(self matches Material::Emitter(_))
    }

    /// The attenuation every scatter of this material carries.
    pub open spec fn albedo_spec(self) -> Vec3 {
        match self {
            Material::Lambertian(m) => m.albedo,
            Material::Metallic(m) => m.albedo,
            Material::Glass(m) => m.albedo,
            Material::Emitter(e) => e.color,
        }
    }

    /// Attempts to scatter `ray` at `hit`. Lambertian, metallic and glass
    /// surfaces always scatter from the hit position with their albedo as
    /// attenuation; an emitter never scatters. The scattered direction is
    /// the variant's own: diffuse toward `normal + u`, metal along the
    /// fuzzed mirror image, glass reflected or refracted.
    pub fn scatter(&self, ray: &Ray, hit: &RayHit, rng: &mut Rng) -> (r: Option<Scatter>)
        ensures
            r is Some <==> self.always_scatters(),
            final(rng).state == scatter_state_spec(*self, old(rng).state),
            r matches Some(s) ==> s.ray.origin == hit.position && s.attenuation
                == self.albedo_spec() && s.ray.direction == scatter_direction_spec(
                *self,
                *ray,
                *hit,
                old(rng).state,
            ),
            self matches Material::Lambertian(_) ==> (r matches Some(s) ==> exists|u: Vec3|
                is_unit_sample(u) && s.ray.direction == if near_zero_spec(
                    #[trigger] vadd(hit.normal, u),
                ) {
                    hit.normal
                } else {
                    vadd(hit.normal, u)
                }),
            self matches Material::Metallic(m) ==> (r matches Some(s) ==> exists|u: Vec3|
                is_unit_sample(u) && s.ray.direction == vadd(
                    reflect_spec(ray.direction, hit.normal),
                    #[trigger] vscale(m.fuzz_factor, u),
                )),
            self matches Material::Glass(m) ==> (r matches Some(s) ==> (s.ray.direction
                == reflect_spec(ray.direction, hit.normal) || s.ray.direction == refract_spec(
                ray.direction,
                hit.normal,
                crate::material::dielectric::ior_fraction_spec(*m, hit.hit_type),
            )) && (crate::material::dielectric::must_reflect_spec(*m, ray.direction, *hit)
                ==> s.ray.direction == reflect_spec(ray.direction, hit.normal))),
    {
        match self {
            Material::Lambertian(m) => Some(m.scatter(ray, hit, rng)),
            Material::Metallic(m) => Some(m.scatter(ray, hit, rng)),
            Material::Glass(m) => Some(m.scatter(ray, hit, rng)),
            Material::Emitter(e) => e.scatter(ray, hit),
        }
    }
}

/// The vector three successive range draws at state `s` produce.
pub open spec fn cube_vector_spec(s: u64, min: Fx, max: Fx) -> Vec3 {
    Vec3 {
        x: fx(range_draw_m(s, min, max)),
        y: fx(range_draw_m(lcg_next(s), min, max)),
        z: fx(range_draw_m(lcg_next(lcg_next(s)), min, max)),
    }
}

/// The axis returned when every rejection draw fails.
pub open spec fn unit_fallback() -> Vec3 {
    Vec3 { x: fx(0), y: fx(FX_ONE as int), z: fx(0) }
}

/// Mirror of the bounded rejection loop behind `random_unit_vector`: draw a
/// cube vector at the current state; if it falls inside the unit ball (and
/// is not the zero vector), normalize it; otherwise retry on the advanced
/// state until the attempts run out.
#[verifier::opaque]
pub open spec fn unit_sample_spec(s: u64, tries: nat) -> (Vec3, u64)
    decreases tries,
{
    if tries == 0 {
        (unit_fallback(), s)
    } else {
        let v = cube_vector_spec(s, fx(-(FX_ONE as int)), fx(FX_ONE as int));
        let s3 = lcg_next3(s);
        if 0 < vmag2_m(v) && vmag2_m(v) < FX_ONE {
            (vnormalize(v), s3)
        } else {
            unit_sample_spec(s3, (tries - 1) as nat)
        }
    }
}

/// A unit sample is the fallback axis or the normalization of a nonzero
/// vector from inside the unit ball.
pub open spec fn is_unit_sample(u: Vec3) -> bool {
    u == unit_fallback() || exists|w: Vec3|
        0 < vmag2_m(w) < FX_ONE && u == #[trigger] vnormalize(w)
}

/// One round of the rejection loop, seen from the specification: an
/// accepted draw ends the search with its normalization; a rejected one
/// continues on the advanced state.
pub proof fn lemma_unit_sample_step(s: u64, tries: nat)
    requires
        tries > 0,
    ensures
        ({
            let v = cube_vector_spec(s, fx(-(FX_ONE as int)), fx(FX_ONE as int));
            if 0 < vmag2_m(v) && vmag2_m(v) < FX_ONE {
                unit_sample_spec(s, tries) == (vnormalize(v), lcg_next3(s))
            } else {
                unit_sample_spec(s, tries) == unit_sample_spec(lcg_next3(s), (tries - 1) as nat)
            }
        }),
{
    reveal_with_fuel(unit_sample_spec, 1);
}

/// The attempts ran out: the sample is the fallback axis.
pub proof fn lemma_unit_sample_exhausted(s: u64)
    ensures
        unit_sample_spec(s, 0) == (unit_fallback(), s),
{
    reveal_with_fuel(unit_sample_spec, 1);
}

/// Whatever the state and the attempt budget, the sampled vector is a unit
/// sample.
pub proof fn lemma_unit_sample_shape(s: u64, tries: nat)
    ensures
        is_unit_sample(unit_sample_spec(s, tries).0),
    decreases tries,
{
    if tries == 0 {
        lemma_unit_sample_exhausted(s);
    } else {
        lemma_unit_sample_step(s, tries);
        let v = cube_vector_spec(s, fx(-(FX_ONE as int)), fx(FX_ONE as int));
        if 0 < vmag2_m(v) && vmag2_m(v) < FX_ONE {
            assert(unit_sample_spec(s, tries).0 == vnormalize(v));
        } else {
            lemma_unit_sample_shape(lcg_next3(s), (tries - 1) as nat);
        }
    }
}

/// A vector with each component drawn uniformly from [min, max).
pub fn random_vector(rng: &mut Rng, min: Fx, max: Fx) -> (r: Vec3)
    ensures
        r == cube_vector_spec(old(rng).state, min, max),
        final(rng).state == lcg_next3(old(rng).state),
        min.m <= max.m && max.m - min.m <= i64::MAX ==> min.m <= r.x.m <= max.m && min.m <= r.y.m
            <= max.m && min.m <= r.z.m <= max.m,
{
    let x = rng.next_range(min, max);
    let y = rng.next_range(min, max);
    let z = rng.next_range(min, max);
    Vec3 { x, y, z }
}

/// A direction sampled uniformly from the unit sphere: rejection-sample the
/// cube [-1, 1)^3 until the vector falls inside the unit ball, then
/// normalize. The number of attempts is bounded; if every draw is rejected
/// (vanishingly unlikely), the vertical axis is returned. The result and
/// the generator's final state are exactly those of `unit_sample_spec` at
/// the entry state.
#[verifier::rlimit(100)]
#[verifier::loop_isolation(false)]
pub fn random_unit_vector(rng: &mut Rng) -> (r: Vec3)
    ensures
        r == unit_sample_spec(old(rng).state, 64).0,
        final(rng).state == unit_sample_spec(old(rng).state, 64).1,
        is_unit_sample(r),
{
    let ghost entry_state = rng.state;
    let minus_one = Fx::from_int(-1);
    let one = Fx::one();
    let mut tries: u32 = 0;
    while tries < 64
        invariant
            tries <= 64,
            minus_one.m == -(FX_ONE as int),
            one.m == FX_ONE as int,
            unit_sample_spec(entry_state, 64) == unit_sample_spec(
                rng.state,
                (64 - tries) as nat,
            ),
        decreases 64 - tries,
    {
        let ghost round_state = rng.state;
        let v = random_vector(rng, minus_one, one);
        let mag2 = v.magnitude_squared();
        proof {
            lemma_unit_sample_step(round_state, (64 - tries) as nat);
        }
        if 0 < mag2.m && mag2.m < FX_ONE {
            proof {
                assert(unit_sample_spec(round_state, (64 - tries) as nat) == (
                    vnormalize(v),
                    rng.state,
                ));
                lemma_unit_sample_shape(entry_state, 64);
            }
            return v.normalize();
        }
        proof {
            assert(unit_sample_spec(round_state, (64 - tries) as nat) == unit_sample_spec(
                rng.state,
                (64 - (tries + 1)) as nat,
            ));
        }
        tries = tries + 1;
    }
    proof {
        lemma_unit_sample_exhausted(rng.state);
        lemma_unit_sample_shape(entry_state, 64);
    }
    Vec3 { x: Fx::zero(), y: one, z: Fx::zero() }
}

/// The vector is indistinguishable from zero at the representation's
/// resolution.
pub fn near_zero(vector: &Vec3) -> (r: bool)
    ensures
        r == near_zero_spec(*vector),
{
    vector.x.m == 0 && vector.y.m == 0 && vector.z.m == 0
}

/// Mirror reflection about a surface normal.
pub fn reflect(incoming: &Vec3, normal: &Vec3) -> (r: Vec3)
    ensures
        r == reflect_spec(*incoming, *normal),
{
    let two = Fx::from_int(2);
    incoming.sub(normal.scale(two.mul(incoming.dot(*normal))))
}

/// Refraction through a dielectric boundary.
pub fn refract(incoming: &Vec3, normal: &Vec3, ior_fraction: Fx) -> (r: Vec3)
    ensures
        r == refract_spec(*incoming, *normal, ior_fraction),
{
    let d = incoming.dot(*normal).neg();
    let one = Fx::one();
    let cos_theta = if d.m < one.m {
        d
    } else {
        one
    };
    let out_perpendicular = incoming.add(normal.scale(cos_theta)).scale(ior_fraction);
    let out_parallel_scale = one.sub(out_perpendicular.magnitude_squared()).abs().sqrt().neg();
    out_perpendicular.add(normal.scale(out_parallel_scale))
}

/// Schlick's reflectance approximation.
pub fn reflectance(cos_angle: Fx, ior_fraction: Fx) -> (r: Fx)
    ensures
        r == reflectance_spec(cos_angle, ior_fraction),
{
    let one = Fx::one();
    let r0_base = one.sub(ior_fraction).div(one.add(ior_fraction));
    let r0 = r0_base.mul(r0_base);
    let one_minus_cos = one.sub(cos_angle);
    let p2 = one_minus_cos.mul(one_minus_cos);
    let p3 = p2.mul(one_minus_cos);
    let p4 = p3.mul(one_minus_cos);
    let p5 = p4.mul(one_minus_cos);
    r0.add(one.sub(r0).mul(p5))
}

} // verus!
