//! A spherical area light sampled stochastically per shadow ray.

use vstd::prelude::*;
use crate::fixed::{
    Fx, FX_ONE, fx_mul_m, fx_div_m, lemma_mul_m_nonneg, lemma_div_m_nonneg,
};
use crate::vec3::{Vec3, fx, vadd, vsub, vneg, vscale, vdot_m, vmag2_m};
use crate::rng::{Rng, lcg_next3};
use crate::material::{random_vector, cube_vector_spec};

verus! {

/// A spherical emitter: center, color, radius and base intensity.
#[derive(Clone, Copy, Debug)]
pub struct RadialLight {
    pub position: Vec3,
    pub color: Vec3,
    pub radius: Fx,
    pub base_intensity: Fx,
}

/// Mirror of the bounded rejection loop behind `sample_light_sphere`: draw
/// a cube vector at the current state; if it falls inside the unit ball,
/// scale it by the light's radius; otherwise retry on the advanced state.
/// When the attempts run out the center offset zero is used.
#[verifier::opaque]
pub open spec fn light_sample_spec(s: u64, radius: Fx, tries: nat) -> (Vec3, u64)
    decreases tries,
{
    if tries == 0 {
        (Vec3 { x: fx(0), y: fx(0), z: fx(0) }, s)
    } else {
        let v = cube_vector_spec(s, fx(-(FX_ONE as int)), fx(FX_ONE as int));
        let s3 = lcg_next3(s);
        if vmag2_m(v) < FX_ONE {
            (vscale(radius, v), s3)
        } else {
            light_sample_spec(s3, radius, (tries - 1) as nat)
        }
    }
}

/// One round of the light-sampling rejection loop, seen from the
/// specification.
pub proof fn lemma_light_sample_step(s: u64, radius: Fx, tries: nat)
    requires
        tries > 0,
    ensures
        ({
            let v = cube_vector_spec(s, fx(-(FX_ONE as int)), fx(FX_ONE as int));
            if vmag2_m(v) < FX_ONE {
                light_sample_spec(s, radius, tries) == (vscale(radius, v), lcg_next3(s))
            } else {
                light_sample_spec(s, radius, tries) == light_sample_spec(
                    lcg_next3(s),
                    radius,
                    (tries - 1) as nat,
                )
            }
        }),
{
    reveal_with_fuel(light_sample_spec, 1);
}

/// The attempts ran out: the offset is zero.
pub proof fn lemma_light_sample_exhausted(s: u64, radius: Fx)
    ensures
        light_sample_spec(s, radius, 0) == ((Vec3 { x: fx(0), y: fx(0), z: fx(0) }), s),
{
    reveal_with_fuel(light_sample_spec, 1);
}

/// Whatever the state and budget, the sampled offset is the radius-scaling
/// of a vector inside the unit ball.
pub proof fn lemma_light_sample_in_ball(s: u64, radius: Fx, tries: nat)
    ensures
        exists|w: Vec3|
            vmag2_m(w) < FX_ONE && light_sample_spec(s, radius, tries).0 == #[trigger] vscale(
                radius,
                w,
            ),
    decreases tries,
{
    if tries == 0 {
        lemma_light_sample_exhausted(s, radius);
        let zero = Vec3 { x: fx(0), y: fx(0), z: fx(0) };
        crate::fixed::lemma_mul_m_zero(radius.m as int);
        assert(vmag2_m(zero) < FX_ONE && light_sample_spec(s, radius, tries).0 == vscale(
            radius,
            zero,
        ));
    } else {
        lemma_light_sample_step(s, radius, tries);
        let v = cube_vector_spec(s, fx(-(FX_ONE as int)), fx(FX_ONE as int));
        if vmag2_m(v) < FX_ONE {
            assert(vmag2_m(v) < FX_ONE && light_sample_spec(s, radius, tries).0 == vscale(
                radius,
                v,
            ));
        } else {
            lemma_light_sample_in_ball(lcg_next3(s), radius, (tries - 1) as nat);
        }
    }
}

/// The position a shadow ray should target, given a sampled offset inside
/// the light's sphere: when the offset points into the same hemisphere as
/// the vector from the reference point toward the light (the far face), it
/// is flipped so rays always target the near face.
pub open spec fn radial_position_spec(light: RadialLight, ray_origin: Vec3, sample: Vec3) -> Vec3 {
    let direction = vsub(light.position, ray_origin);
    if vdot_m(direction, sample) > 0 {
        vadd(light.position, vneg(sample))
    } else {
        vadd(light.position, sample)
    }
}

/// The cosine-weighted direct-light contribution:
/// `max(0, dot(light_direction, normal)) * intensity * color * falloff(d^2)`.
/// Negative incidence is clamped to zero so no light is subtracted.
pub open spec fn radial_color_spec(
    light: RadialLight,
    light_direction: Vec3,
    normal: Vec3,
    distance_squared: Fx,
) -> Vec3 {
    let phong_raw = vdot_m(light_direction, normal);
    let phong = if phong_raw < 0 {
        0
    } else {
        phong_raw
    };
    let scaled = fx_mul_m(phong, light.base_intensity.m as int);
    let falloff = fx_div_m(FX_ONE as int, distance_squared.m as int);
    vscale(fx(falloff), vscale(fx(scaled), light.color))
}

impl RadialLight {
    pub fn new(position: Vec3, color: Vec3, radius: Fx, base_intensity: Fx) -> (r: RadialLight)
        ensures
            r.position == position,
            r.color == color,
            r.radius == radius,
            r.base_intensity == base_intensity,
    {
        RadialLight { position, color, radius, base_intensity }
    }

    /// A point inside the light's sphere: rejection-sample the unit cube
    /// until the draw falls inside the unit ball, then scale by the radius.
    /// Attempts are bounded; if every draw is rejected the center offset
    /// zero is used. The result and the generator's final state are exactly
    /// those of `light_sample_spec` at the entry state.
    #[verifier::loop_isolation(false)]
    fn sample_light_sphere(&self, rng: &mut Rng) -> (r: Vec3)
        ensures
            r == light_sample_spec(old(rng).state, self.radius, 64).0,
            final(rng).state == light_sample_spec(old(rng).state, self.radius, 64).1,
    {
        let ghost entry_state = rng.state;
        let minus_one = Fx::from_int(-1);
        let one = Fx::one();
        let mut tries: u32 = 0;
        while tries < 64
            invariant
                tries <= 64,
                light_sample_spec(entry_state, self.radius, 64) == light_sample_spec(
                    rng.state,
                    self.radius,
                    (64 - tries) as nat,
                ),
            decreases 64 - tries,
        {
            let ghost round_state = rng.state;
            let v = random_vector(rng, minus_one, one);
            proof {
                lemma_light_sample_step(round_state, self.radius, (64 - tries) as nat);
            }
            if v.magnitude_squared().m < FX_ONE {
                return v.scale(self.radius);
            }
            tries = tries + 1;
        }
        proof {
            lemma_light_sample_exhausted(rng.state, self.radius);
        }
        Vec3::zeros()
    }

    /// The deterministic part of position sampling: offset the center by
    /// the sample, flipped onto the near face when needed.
    pub fn position_with(&self, ray_origin: &Vec3, sphere_sample: Vec3) -> (r: Vec3)
        ensures
            r == radial_position_spec(*self, *ray_origin, sphere_sample),
    {
        let direction = self.position.sub(*ray_origin);
        // A positive dot product means the sample faces away from the
        // viewer: flip it so the shadow ray targets the light's near face.
        if direction.dot(sphere_sample).m > 0 {
            self.position.add(sphere_sample.neg())
        } else {
            self.position.add(sphere_sample)
        }
    }

    /// A position on the light visible from `ray_origin`: the center offset
    /// by a fresh in-sphere sample, flipped onto the near face. The sample
    /// is the radius-scaling of a vector inside the unit ball, and the
    /// whole draw is pinned to the generator's entry state.
    pub fn position(&self, ray_origin: &Vec3, rng: &mut Rng) -> (r: Vec3)
        ensures
            r == radial_position_spec(
                *self,
                *ray_origin,
                light_sample_spec(old(rng).state, self.radius, 64).0,
            ),
            final(rng).state == light_sample_spec(old(rng).state, self.radius, 64).1,
            exists|w: Vec3|
                vmag2_m(w) < FX_ONE && r == radial_position_spec(
                    *self,
                    *ray_origin,
                    #[trigger] vscale(self.radius, w),
                ),
    {
        let ghost entry_state = rng.state;
        let sphere_sample = self.sample_light_sphere(rng);
        let r = self.position_with(ray_origin, sphere_sample);
        proof {
            assert(r == radial_position_spec(*self, *ray_origin, sphere_sample));
            lemma_light_sample_in_ball(entry_state, self.radius, 64);
        }
        r
    }

    /// Inverse-square falloff `1 / d^2`, unclamped near zero (a zero
    /// distance saturates).
    pub fn falloff_intensity(&self, distance_squared: Fx) -> (r: Fx)
        ensures
            r.m == fx_div_m(FX_ONE as int, distance_squared.m as int),
    {
        Fx::one().div(distance_squared)
    }

    /// The light's direct contribution for a given incidence direction,
    /// surface normal and squared distance. Nonnegative whenever the
    /// light's color, intensity and the squared distance are.
    pub fn color(&self, light_direction: &Vec3, normal: &Vec3, distance_squared: Fx) -> (r: Vec3)
        ensures
            r == radial_color_spec(*self, *light_direction, *normal, distance_squared),
            self.base_intensity.m >= 0 && self.color.x.m >= 0 && self.color.y.m >= 0
                && self.color.z.m >= 0 && distance_squared.m >= 0 ==> r.x.m >= 0 && r.y.m >= 0
                && r.z.m >= 0,
    {
        let phong_raw = light_direction.dot(*normal);
        let phong = if phong_raw.m < 0 {
            Fx::zero()
        } else {
            phong_raw
        };
        let scaled = phong.mul(self.base_intensity);
        let falloff = self.falloff_intensity(distance_squared);
        let tinted = self.color.scale(scaled);
        let result = tinted.scale(falloff);
        proof {
            if self.base_intensity.m >= 0 && self.color.x.m >= 0 && self.color.y.m >= 0
                && self.color.z.m >= 0 && distance_squared.m >= 0 {
                lemma_mul_m_nonneg(phong.m as int, self.base_intensity.m as int);
                lemma_div_m_nonneg(FX_ONE as int, distance_squared.m as int);
                lemma_mul_m_nonneg(scaled.m as int, self.color.x.m as int);
                lemma_mul_m_nonneg(scaled.m as int, self.color.y.m as int);
                lemma_mul_m_nonneg(scaled.m as int, self.color.z.m as int);
                lemma_mul_m_nonneg(falloff.m as int, tinted.x.m as int);
                lemma_mul_m_nonneg(falloff.m as int, tinted.y.m as int);
                lemma_mul_m_nonneg(falloff.m as int, tinted.z.m as int);
            }
        }
        result
    }
}

} // verus!
