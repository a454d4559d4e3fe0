//! The scene: primitives, lights and the sky, with nearest-hit and
//! shadow-ray queries.
//!
//! `Scene::hit` carries the scene's central invariant as its contract: the
//! returned intersection is the globally closest one within the queried
//! interval, never merely the first found, whatever the order of the
//! primitive list.

use vstd::prelude::*;
use crate::fixed::{Fx, FX_ONE, fx_add_m, fx_sub_m, fx_mul_m, fx_div_m};
use crate::vec3::{Vec3, fx, vadd, vsub, vscale, vnormalize, vmag2_m, lemma_vmag2_m_nonneg};
use crate::interval::Interval;
use crate::ray::Ray;
use crate::ray_hit::RayHit;
use crate::primitive::{Shape, Hittable, shape_hit_spec, lemma_shape_hit_narrow};
use crate::light::radial_light::{RadialLight, light_sample_spec, radial_position_spec,
    radial_color_spec};
use crate::rng::Rng;

verus! {

/// The two colors of the vertical sky gradient.
#[derive(Clone, Copy, Debug)]
pub struct SkyAttenuation {
    pub light_color: Vec3,
    pub sky_color: Vec3,
}

/// A scene: a sky, a list of primitives and a list of lights.
pub struct Scene {
    pub sky_attenuation: SkyAttenuation,
    pub primitives: Vec<Shape>,
    pub lights: Vec<RadialLight>,
}

/// Every hit a shape reports lies strictly inside the queried interval.
pub proof fn lemma_shape_hit_surrounds(s: Shape, ray: Ray, interval: Interval)
    ensures
        shape_hit_spec(s, ray, interval) matches Some(h) ==> interval.surrounds_spec(h.depth),
{
}

/// The nearest hit among the first `n` shapes, first-found winning ties:
/// the fold the scene's scan computes.
#[verifier::opaque]
pub open spec fn scene_hit_prefix(prims: Seq<Shape>, ray: Ray, interval: Interval, n: int)
    -> Option<RayHit>
    decreases n,
{
    if n <= 0 {
        None
    } else {
        let prev = scene_hit_prefix(prims, ray, interval, n - 1);
        match (prev, shape_hit_spec(prims[n - 1], ray, interval)) {
            (None, current) => current,
            (Some(best), None) => Some(best),
            (Some(best), Some(current)) => if current.depth.m < best.depth.m {
                Some(current)
            } else {
                Some(best)
            },
        }
    }
}

/// One round of the nearest-hit fold, seen from the specification.
pub proof fn lemma_scene_hit_prefix_step(prims: Seq<Shape>, ray: Ray, interval: Interval, n: int)
    ensures
        n <= 0 ==> scene_hit_prefix(prims, ray, interval, n) is None,
        n > 0 ==> scene_hit_prefix(prims, ray, interval, n) == (match (
            scene_hit_prefix(prims, ray, interval, n - 1),
            shape_hit_spec(prims[n - 1], ray, interval),
        ) {
            (None, current) => current,
            (Some(best), None) => Some(best),
            (Some(best), Some(current)) => if current.depth.m < best.depth.m {
                Some(current)
            } else {
                Some(best)
            },
        }),
{
    reveal_with_fuel(scene_hit_prefix, 1);
}

/// The hit the scene reports: the nearest over the whole primitive list.
pub open spec fn scene_hit_spec(scene: Scene, ray: Ray, interval: Interval) -> Option<RayHit> {
    scene_hit_prefix(scene.primitives@, ray, interval, scene.primitives@.len() as int)
}

/// Something in the scene intersects the ray within the interval.
pub open spec fn scene_occluded_spec(scene: Scene, ray: Ray, interval: Interval) -> bool {
    exists|j: int|
        0 <= j < scene.primitives@.len() && (#[trigger] shape_hit_spec(
            scene.primitives@[j],
            ray,
            interval,
        )) is Some
}

/// The shadow contribution of the first `n` lights, with the generator at
/// state `s` before light 0's draw: each light is sampled, a shadow ray is
/// cast at its near face, and its cosine-weighted falloff color is added
/// exactly when nothing in the scene blocks the ray — one blocking
/// primitive, opaque or transparent, removes the light's whole
/// contribution.
#[verifier::opaque]
pub open spec fn shadow_prefix(scene: Scene, hit: RayHit, interval: Interval, s: u64, n: int)
    -> (Vec3, u64)
    decreases n,
{
    if n <= 0 {
        ((Vec3 { x: fx(0), y: fx(0), z: fx(0) }), s)
    } else {
        let prev = shadow_prefix(scene, hit, interval, s, n - 1);
        let light = scene.lights@[n - 1];
        let sampled = light_sample_spec(prev.1, light.radius, 64);
        let target = radial_position_spec(light, hit.position, sampled.0);
        let pl = vsub(target, hit.position);
        let direction = vnormalize(pl);
        let shadow_ray = Ray { origin: hit.position, direction };
        if scene_occluded_spec(scene, shadow_ray, interval) {
            (prev.0, sampled.1)
        } else {
            (
                vadd(prev.0, radial_color_spec(light, direction, hit.normal, fx(vmag2_m(pl)))),
                sampled.1,
            )
        }
    }
}

/// One round of the shadow fold, seen from the specification.
pub proof fn lemma_shadow_prefix_step(scene: Scene, hit: RayHit, interval: Interval, s: u64, n: int)
    ensures
        n <= 0 ==> shadow_prefix(scene, hit, interval, s, n) == (
            (Vec3 { x: fx(0), y: fx(0), z: fx(0) }),
            s,
        ),
        n > 0 ==> shadow_prefix(scene, hit, interval, s, n) == ({
            let prev = shadow_prefix(scene, hit, interval, s, n - 1);
            let light = scene.lights@[n - 1];
            let sampled = light_sample_spec(prev.1, light.radius, 64);
            let target = radial_position_spec(light, hit.position, sampled.0);
            let pl = vsub(target, hit.position);
            let direction = vnormalize(pl);
            let shadow_ray = Ray { origin: hit.position, direction };
            if scene_occluded_spec(scene, shadow_ray, interval) {
                (prev.0, sampled.1)
            } else {
                (
                    vadd(prev.0, radial_color_spec(light, direction, hit.normal, fx(vmag2_m(pl)))),
                    sampled.1,
                )
            }
        }),
{
    reveal_with_fuel(shadow_prefix, 1);
}

/// The summed direct light of the whole light list.
pub open spec fn shadow_sum_spec(scene: Scene, hit: RayHit, interval: Interval, s: u64) -> (
    Vec3,
    u64,
) {
    shadow_prefix(scene, hit, interval, s, scene.lights@.len() as int)
}

impl Scene {
    pub fn new(sky_attenuation: SkyAttenuation, primitives: Vec<Shape>, lights: Vec<RadialLight>)
        -> (r: Scene)
        ensures
            r.sky_attenuation == sky_attenuation,
            r.primitives@ == primitives@,
            r.lights@ == lights@,
    {
        Scene { sky_attenuation, primitives, lights }
    }

    /// The environment color of a ray that escaped the scene: a vertical
    /// gradient between the light color and the sky color, interpolated by
    /// `0.5 * (direction.y + 1)`.
    pub open spec fn sky_color_spec(self, ray: Ray) -> Vec3 {
        let a = fx(fx_mul_m(fx_div_m(1, 2), fx_add_m(ray.direction.y.m as int, FX_ONE as int)));
        vadd(
            vscale(fx(fx_sub_m(FX_ONE as int, a.m as int)), self.sky_attenuation.light_color),
            vscale(a, self.sky_attenuation.sky_color),
        )
    }

    pub fn get_sky_color(&self, ray: &Ray) -> (r: Vec3)
        ensures
            r == self.sky_color_spec(*ray),
    {
        let half = Fx::from_ratio(1, 2);
        let a = half.mul(ray.direction().y.add(Fx::one()));
        self.sky_attenuation.light_color.scale(Fx::one().sub(a)).add(
            self.sky_attenuation.sky_color.scale(a),
        )
    }

    /// Whether anything at all blocks `ray` within `interval`.
    pub fn is_occluded(&self, ray: &Ray, interval: &Interval) -> (r: bool)
        ensures
            r == scene_occluded_spec(*self, *ray, *interval),
    {
        let n = self.primitives.len();
        let mut i: usize = 0;
        while i < n
            invariant
                n == self.primitives@.len(),
                i <= n,
                forall|j: int|
                    0 <= j < i ==> (#[trigger] shape_hit_spec(
                        self.primitives@[j],
                        *ray,
                        *interval,
                    )) is None,
            decreases n - i,
        {
            if self.primitives[i].hit(ray, interval).is_some() {
                return true;
            }
            i = i + 1;
        }
        false
    }

    /// The lights all have nonnegative color and intensity.
    pub open spec fn lights_wf(self) -> bool {
        forall|j: int|
            0 <= j < self.lights@.len() ==> {
                let l = #[trigger] self.lights@[j];
                l.base_intensity.m >= 0 && l.color.x.m >= 0 && l.color.y.m >= 0 && l.color.z.m
                    >= 0
            }
    }

    /// The summed direct contribution of every light whose sampled position
    /// is unobstructed from the hit point: for each light, sample a target,
    /// cast a shadow ray, and add the light's cosine-weighted falloff color
    /// when nothing occludes it. Boolean visibility: a single blocking
    /// primitive discards the light entirely. With well-formed lights the
    /// sum never turns negative.
    #[verifier::loop_isolation(false)]
    pub fn shadow_ray(&self, hit: &RayHit, interval: &Interval, rng: &mut Rng) -> (r: Vec3)
        ensures
            r == shadow_sum_spec(*self, *hit, *interval, old(rng).state).0,
            final(rng).state == shadow_sum_spec(*self, *hit, *interval, old(rng).state).1,
            self.lights_wf() ==> r.x.m >= 0 && r.y.m >= 0 && r.z.m >= 0,
            self.lights@.len() == 0 ==> r == (Vec3 { x: fx(0), y: fx(0), z: fx(0) }),
    {
        let ghost entry_state = rng.state;
        proof {
            lemma_shadow_prefix_step(*self, *hit, *interval, entry_state, 0);
        }
        let mut combined_light = Vec3::zeros();
        let n = self.lights.len();
        let mut i: usize = 0;
        while i < n
            invariant
                i <= n,
                (combined_light, rng.state) == shadow_prefix(
                    *self,
                    *hit,
                    *interval,
                    entry_state,
                    i as int,
                ),
                self.lights_wf() ==> combined_light.x.m >= 0 && combined_light.y.m >= 0
                    && combined_light.z.m >= 0,
            decreases n - i,
        {
            proof {
                lemma_shadow_prefix_step(*self, *hit, *interval, entry_state, i + 1);
            }
            let light = &self.lights[i];
            let target = light.position(&hit.position, rng);
            let pl = target.sub(hit.position);
            let shadow_ray_direction = pl.normalize();
            let shadow_ray = Ray::new(hit.position, shadow_ray_direction);

            // Transparent occluders cast shadows too: visibility is boolean
            // until transmittance is modeled.
            let occluded = self.is_occluded(&shadow_ray, interval);
            if !occluded {
                let distance_squared = pl.magnitude_squared();
                proof {
                    lemma_vmag2_m_nonneg(pl);
                }
                let contribution = light.color(&shadow_ray_direction, &hit.normal, distance_squared);
                combined_light = combined_light.add(contribution);
            }
            i = i + 1;
        }
        combined_light
    }

    /// The globally nearest hit: if any primitive reports a hit within the
    /// interval, the result is a hit of minimal depth among all of them —
    /// exactly the first such in list order, as the fold `scene_hit_spec`
    /// states; if none does, there is no hit.
    pub fn hit(&self, ray: &Ray, interval: &Interval) -> (r: Option<RayHit>)
        ensures
            r == scene_hit_spec(*self, *ray, *interval),
            r is None ==> forall|j: int|
                0 <= j < self.primitives@.len() ==> (#[trigger] shape_hit_spec(
                    self.primitives@[j],
                    *ray,
                    *interval,
                )) is None,
            r matches Some(h) ==> interval.surrounds_spec(h.depth) && (exists|j: int|
                0 <= j < self.primitives@.len() && #[trigger] shape_hit_spec(
                    self.primitives@[j],
                    *ray,
                    *interval,
                ) == Some(h)) && (forall|j: int|
                0 <= j < self.primitives@.len() ==> ((#[trigger] shape_hit_spec(
                    self.primitives@[j],
                    *ray,
                    *interval,
                )) matches Some(other) ==> h.depth.m <= other.depth.m)),
    {
        proof {
            lemma_scene_hit_prefix_step(self.primitives@, *ray, *interval, 0);
        }
        let mut closest_hit: Option<RayHit> = None;
        let n = self.primitives.len();
        let mut i: usize = 0;
        while i < n
            invariant
                n == self.primitives@.len(),
                i <= n,
                closest_hit == scene_hit_prefix(self.primitives@, *ray, *interval, i as int),
                match closest_hit {
                    None => forall|j: int|
                        0 <= j < i ==> (#[trigger] shape_hit_spec(
                            self.primitives@[j],
                            *ray,
                            *interval,
                        )) is None,
                    Some(h) => interval.surrounds_spec(h.depth) && (exists|j: int|
                        0 <= j < i && #[trigger] shape_hit_spec(
                            self.primitives@[j],
                            *ray,
                            *interval,
                        ) == Some(h)) && (forall|j: int|
                        0 <= j < i ==> ((#[trigger] shape_hit_spec(
                            self.primitives@[j],
                            *ray,
                            *interval,
                        )) matches Some(other) ==> h.depth.m <= other.depth.m)),
                },
            decreases n - i,
        {
            let primitive = &self.primitives[i];
            let closest_depth = match &closest_hit {
                Some(hit) => hit.depth,
                None => interval.max(),
            };
            // Shrink the search to what would beat the best hit so far:
            // later primitives cannot register a farther hit.
            let narrowed = Interval::new(interval.min(), closest_depth);
            let candidate = primitive.hit(ray, &narrowed);
            proof {
                lemma_shape_hit_narrow(self.primitives@[i as int], *ray, *interval, closest_depth);
                lemma_shape_hit_surrounds(self.primitives@[i as int], *ray, *interval);
                lemma_scene_hit_prefix_step(self.primitives@, *ray, *interval, i + 1);
            }
            match candidate {
                Some(hit) => {
                    closest_hit = match closest_hit {
                        Some(closest) => if hit.depth.m < closest.depth.m {
                            Some(hit)
                        } else {
                            Some(closest)
                        },
                        None => Some(hit),
                    };
                },
                None => {},
            }
            i = i + 1;
        }
        closest_hit
    }
}

impl Hittable for Scene {
    fn hit(&self, ray: &Ray, interval: &Interval) -> Option<RayHit> {
        self.hit(ray, interval)
    }
}

} // verus!
