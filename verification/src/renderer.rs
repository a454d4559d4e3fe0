//! The integrator and renderer loop: accumulate stochastic path samples per
//! pixel, tone-map, and quantize into a dense 8-bit RGB buffer.
//!
//! The random source is the crate's own deterministic generator, so the
//! whole pipeline is a function of the scene, the camera and the entry
//! state: `bounce_radiance_spec` mirrors one path walk, `sample_sum_spec`
//! a pixel's sample accumulation, and `row_bytes_spec` / `image_bytes_spec`
//! the quantized bytes the loops emit.

use vstd::prelude::*;
use crate::fixed::{Fx, fx_sqrt_m, fx_div_m};
use crate::vec3::{Vec3, fx, vadd, vmul, vdiv};
use crate::interval::Interval;
use crate::ray::Ray;
use crate::ray_hit::RayHit;
use crate::camera::{Camera, primary_ray_spec};
use crate::material::{MaterialTransparency, scatter_direction_spec, scatter_state_spec};
use crate::primitive::shape_hit_spec;
use crate::resolution::Resolution;
use crate::scene::{Scene, scene_hit_spec, shadow_sum_spec};
use crate::rng::Rng;

verus! {

/// The integrator's parameters: output resolution, samples per pixel and
/// the bounce budget of each path.
#[derive(Clone, Copy, Debug)]
pub struct RendererConfig {
    pub resolution: Resolution,
    pub sample_count: u32,
    pub max_bounces: u32,
}

/// A renderer: its configuration and the RGB output buffer it fills,
/// row-major with the origin at the top left.
pub struct Renderer {
    pub config: RendererConfig,
    pub render_target: Vec<u8>,
}

/// The zero radiance.
pub open spec fn zero_vec() -> Vec3 {
    Vec3 { x: fx(0), y: fx(0), z: fx(0) }
}

/// No primitive of the scene intersects the ray within the interval.
pub open spec fn scene_misses_spec(scene: Scene, ray: Ray, interval: Interval) -> bool {
    forall|j: int|
        0 <= j < scene.primitives@.len() ==> (#[trigger] shape_hit_spec(
            scene.primitives@[j],
            ray,
            interval,
        )) is None
}

/// `h` is a hit of globally minimal depth among everything the scene's
/// primitives report for the ray within the interval.
pub open spec fn nearest_hit_spec(scene: Scene, ray: Ray, interval: Interval, h: RayHit) -> bool {
    &&& interval.surrounds_spec(h.depth)
    &&& exists|j: int|
        0 <= j < scene.primitives@.len() && #[trigger] shape_hit_spec(
            scene.primitives@[j],
            ray,
            interval,
        ) == Some(h)
    &&& forall|j: int|
        0 <= j < scene.primitives@.len() ==> ((#[trigger] shape_hit_spec(
            scene.primitives@[j],
            ray,
            interval,
        )) matches Some(other) ==> h.depth.m <= other.depth.m)
}

/// What the integrator returns for a path that hit `h`: the emission if the
/// material does not scatter; otherwise the albedo times the radiance of
/// the continued path, additionally modulated by the direct-light sum when
/// the material is opaque.
pub open spec fn bounce_shade_spec(h: RayHit, r: Vec3) -> bool {
    if h.material.always_scatters() {
        match h.material.transparency_spec() {
            MaterialTransparency::Transparent => exists|rest: Vec3|
                r == #[trigger] vmul(h.material.albedo_spec(), rest),
            MaterialTransparency::Opaque => exists|rest: Vec3, direct: Vec3|
                r == #[trigger] vmul(vmul(h.material.albedo_spec(), rest), direct),
        }
    } else {
        r == h.material.emit_spec()
    }
}

/// The radiance one path gathers and the state it leaves the generator in,
/// walking from state `s`: black at budget exhaustion, the sky on a miss,
/// the emission at a non-scattering surface; otherwise the continued
/// path's radiance attenuated by the albedo and — on an opaque surface —
/// by the shadow sum of the hit.
#[verifier::opaque]
pub open spec fn bounce_radiance_spec(
    scene: Scene,
    ray: Ray,
    z_interval: Interval,
    depth: u32,
    s: u64,
) -> (Vec3, u64)
    decreases depth,
{
    if depth == 0 {
        (zero_vec(), s)
    } else {
        match scene_hit_spec(scene, ray, z_interval) {
            None => (scene.sky_color_spec(ray), s),
            Some(h) => if !h.material.always_scatters() {
                (h.material.emit_spec(), s)
            } else {
                let direction = scatter_direction_spec(h.material, ray, h, s);
                let rest = bounce_radiance_spec(
                    scene,
                    Ray { origin: h.position, direction },
                    z_interval,
                    (depth - 1) as u32,
                    scatter_state_spec(h.material, s),
                );
                let object_color = vmul(h.material.albedo_spec(), rest.0);
                match h.material.transparency_spec() {
                    MaterialTransparency::Opaque => {
                        let direct = shadow_sum_spec(scene, h, z_interval, rest.1);
                        (vmul(object_color, direct.0), direct.1)
                    },
                    MaterialTransparency::Transparent => (object_color, rest.1),
                }
            },
        }
    }
}

/// One step of the path walk, seen from the specification.
pub proof fn lemma_bounce_radiance_step(
    scene: Scene,
    ray: Ray,
    z_interval: Interval,
    depth: u32,
    s: u64,
)
    ensures
        depth == 0 ==> bounce_radiance_spec(scene, ray, z_interval, depth, s) == (zero_vec(), s),
        depth > 0 && scene_hit_spec(scene, ray, z_interval) is None ==> bounce_radiance_spec(
            scene,
            ray,
            z_interval,
            depth,
            s,
        ) == (scene.sky_color_spec(ray), s),
        depth > 0 ==> (scene_hit_spec(scene, ray, z_interval) matches Some(h)
            ==> bounce_radiance_spec(scene, ray, z_interval, depth, s) == (
        if !h.material.always_scatters() {
            (h.material.emit_spec(), s)
        } else {
            let direction = scatter_direction_spec(h.material, ray, h, s);
            let rest = bounce_radiance_spec(
                scene,
                Ray { origin: h.position, direction },
                z_interval,
                (depth - 1) as u32,
                scatter_state_spec(h.material, s),
            );
            let object_color = vmul(h.material.albedo_spec(), rest.0);
            match h.material.transparency_spec() {
                MaterialTransparency::Opaque => {
                    let direct = shadow_sum_spec(scene, h, z_interval, rest.1);
                    (vmul(object_color, direct.0), direct.1)
                },
                MaterialTransparency::Transparent => (object_color, rest.1),
            }
        })),
{
    reveal_with_fuel(bounce_radiance_spec, 1);
}

/// The accumulated radiance of the first `n` path samples of pixel (x, y),
/// with the generator at state `s` before sample 0's draws.
#[verifier::opaque]
pub open spec fn sample_sum_spec(
    cam: Camera,
    scene: Scene,
    max_bounces: u32,
    x: u32,
    y: u32,
    n: int,
    s: u64,
) -> (Vec3, u64)
    decreases n,
{
    if n <= 0 {
        (zero_vec(), s)
    } else {
        let prev = sample_sum_spec(cam, scene, max_bounces, x, y, n - 1, s);
        let pr = primary_ray_spec(cam, x, y, prev.1);
        let c = bounce_radiance_spec(scene, pr.0, cam.scene_depth, max_bounces, pr.1);
        (vadd(prev.0, c.0), c.1)
    }
}

/// One accumulated sample, seen from the specification.
pub proof fn lemma_sample_sum_step(
    cam: Camera,
    scene: Scene,
    max_bounces: u32,
    x: u32,
    y: u32,
    n: int,
    s: u64,
)
    ensures
        n <= 0 ==> sample_sum_spec(cam, scene, max_bounces, x, y, n, s) == (zero_vec(), s),
        n > 0 ==> sample_sum_spec(cam, scene, max_bounces, x, y, n, s) == ({
            let prev = sample_sum_spec(cam, scene, max_bounces, x, y, n - 1, s);
            let pr = primary_ray_spec(cam, x, y, prev.1);
            let c = bounce_radiance_spec(scene, pr.0, cam.scene_depth, max_bounces, pr.1);
            (vadd(prev.0, c.0), c.1)
        }),
{
    reveal_with_fuel(sample_sum_spec, 1);
}

/// Mantissa of an 8-bit channel: the color clamped into [0, 0.999] and
/// scaled by 256, truncated. The clamp keeps the boundary value 256 out of
/// reach of the 8-bit range.
pub open spec fn quantize_m(m: int) -> int {
    let clamped = if m < fx_div_m(999, 1000) {
        if m < 0 {
            0
        } else {
            m
        }
    } else {
        fx_div_m(999, 1000)
    };
    clamped / 256
}

/// The three bytes of pixel (x, y): the per-sample radiances averaged,
/// gamma-corrected by a square root per channel, and quantized.
pub open spec fn pixel_bytes_spec(
    cam: Camera,
    scene: Scene,
    config: RendererConfig,
    x: u32,
    y: u32,
    s: u64,
) -> (Seq<u8>, u64) {
    let sum = sample_sum_spec(cam, scene, config.max_bounces, x, y, config.sample_count as int, s);
    let avg = vdiv(sum.0, Fx::from_int_spec(config.sample_count as i64));
    let gamma = Vec3 {
        x: fx(fx_sqrt_m(avg.x.m as int)),
        y: fx(fx_sqrt_m(avg.y.m as int)),
        z: fx(fx_sqrt_m(avg.z.m as int)),
    };
    (
        seq![
            quantize_m(gamma.x.m as int) as u8,
            quantize_m(gamma.y.m as int) as u8,
            quantize_m(gamma.z.m as int) as u8,
        ],
        sum.1,
    )
}

/// The bytes of the first `n` pixels of row `y`.
#[verifier::opaque]
pub open spec fn row_bytes_spec(
    cam: Camera,
    scene: Scene,
    config: RendererConfig,
    y: u32,
    n: int,
    s: u64,
) -> (Seq<u8>, u64)
    decreases n,
{
    if n <= 0 {
        (Seq::empty(), s)
    } else {
        let prev = row_bytes_spec(cam, scene, config, y, n - 1, s);
        let px = pixel_bytes_spec(cam, scene, config, (n - 1) as u32, y, prev.1);
        (prev.0 + px.0, px.1)
    }
}

/// One pixel of a row, seen from the specification.
pub proof fn lemma_row_bytes_step(
    cam: Camera,
    scene: Scene,
    config: RendererConfig,
    y: u32,
    n: int,
    s: u64,
)
    ensures
        n <= 0 ==> row_bytes_spec(cam, scene, config, y, n, s) == (Seq::<u8>::empty(), s),
        n > 0 ==> row_bytes_spec(cam, scene, config, y, n, s) == ({
            let prev = row_bytes_spec(cam, scene, config, y, n - 1, s);
            let px = pixel_bytes_spec(cam, scene, config, (n - 1) as u32, y, prev.1);
            (prev.0 + px.0, px.1)
        }),
{
    reveal_with_fuel(row_bytes_spec, 1);
}

/// The bytes of the first `n` rows of the image, top row first.
#[verifier::opaque]
pub open spec fn image_bytes_spec(
    cam: Camera,
    scene: Scene,
    config: RendererConfig,
    n: int,
    s: u64,
) -> (Seq<u8>, u64)
    decreases n,
{
    if n <= 0 {
        (Seq::empty(), s)
    } else {
        let prev = image_bytes_spec(cam, scene, config, n - 1, s);
        let row = row_bytes_spec(
            cam,
            scene,
            config,
            (n - 1) as u32,
            config.resolution.0 as int,
            prev.1,
        );
        (prev.0 + row.0, row.1)
    }
}

/// One row of the image, seen from the specification.
pub proof fn lemma_image_bytes_step(
    cam: Camera,
    scene: Scene,
    config: RendererConfig,
    n: int,
    s: u64,
)
    ensures
        n <= 0 ==> image_bytes_spec(cam, scene, config, n, s) == (Seq::<u8>::empty(), s),
        n > 0 ==> image_bytes_spec(cam, scene, config, n, s) == ({
            let prev = image_bytes_spec(cam, scene, config, n - 1, s);
            let row = row_bytes_spec(
                cam,
                scene,
                config,
                (n - 1) as u32,
                config.resolution.0 as int,
                prev.1,
            );
            (prev.0 + row.0, row.1)
        }),
{
    reveal_with_fuel(image_bytes_spec, 1);
}

impl Renderer {
    pub fn new(config: RendererConfig) -> (r: Renderer)
        ensures
            r.config == config,
            r.render_target@.len() == 0,
    {
        Renderer { config, render_target: Vec::new() }
    }

    /// One path: walk the ray through the scene until the bounce budget is
    /// exhausted (black), the ray escapes (sky), or a non-scattering
    /// material ends the path (its emission); otherwise recurse on the
    /// scattered ray and attenuate. The result and the generator's final
    /// state are exactly those of `bounce_radiance_spec` at the entry
    /// state.
    pub fn bounce_ray(ray: &Ray, scene: &Scene, z_interval: &Interval, depth: u32, rng: &mut Rng)
        -> (r: Vec3)
        ensures
            r == bounce_radiance_spec(*scene, *ray, *z_interval, depth, old(rng).state).0,
            final(rng).state == bounce_radiance_spec(
                *scene,
                *ray,
                *z_interval,
                depth,
                old(rng).state,
            ).1,
            depth == 0 ==> r == zero_vec(),
            depth > 0 && scene_misses_spec(*scene, *ray, *z_interval) ==> r
                == scene.sky_color_spec(*ray),
            depth > 0 && !scene_misses_spec(*scene, *ray, *z_interval) ==> exists|h: RayHit|
                #[trigger] nearest_hit_spec(*scene, *ray, *z_interval, h) && bounce_shade_spec(
                    h,
                    r,
                ),
        decreases depth,
    {
        proof {
            lemma_bounce_radiance_step(*scene, *ray, *z_interval, depth, rng.state);
        }
        if depth == 0 {
            return Vec3::zeros();
        }

        let closest_hit = scene.hit(ray, z_interval);
        match closest_hit {
            Some(hit) => {
                let scatter = hit.material.scatter(ray, &hit, rng);

                let shaded = match scatter {
                    Some(scatter) => {
                        let rest = Renderer::bounce_ray(
                            &scatter.ray,
                            scene,
                            z_interval,
                            depth - 1,
                            rng,
                        );
                        let object_color = scatter.attenuation.component_mul(rest);

                        match hit.material.material_transparency() {
                            MaterialTransparency::Opaque => {
                                let direct = scene.shadow_ray(&hit, z_interval, rng);
                                let lit = object_color.component_mul(direct);
                                proof {
                                    assert(lit == vmul(
                                        vmul(hit.material.albedo_spec(), rest),
                                        direct,
                                    ));
                                }
                                lit
                            },
                            MaterialTransparency::Transparent => {
                                proof {
                                    assert(object_color == vmul(
                                        hit.material.albedo_spec(),
                                        rest,
                                    ));
                                }
                                object_color
                            },
                        }
                    },
                    None => hit.material.emit(),
                };
                proof {
                    assert(nearest_hit_spec(*scene, *ray, *z_interval, hit));
                    assert(bounce_shade_spec(hit, shaded));
                }
                shaded
            },
            None => scene.get_sky_color(ray),
        }
    }

    /// Gamma correction by one square root per channel (gamma 2).
    pub fn rgb_to_gamma(color: Vec3) -> (r: Vec3)
        ensures
            r == (Vec3 {
                x: fx(fx_sqrt_m(color.x.m as int)),
                y: fx(fx_sqrt_m(color.y.m as int)),
                z: fx(fx_sqrt_m(color.z.m as int)),
            }),
    {
        Vec3 { x: color.x.sqrt(), y: color.y.sqrt(), z: color.z.sqrt() }
    }

    /// Quantization to three 8-bit channels; each channel is clamped below
    /// 1 before scaling, so it never overflows the 8-bit range.
    pub fn vec3_to_color(color: Vec3) -> (r: (u8, u8, u8))
        ensures
            r.0 == quantize_m(color.x.m as int),
            r.1 == quantize_m(color.y.m as int),
            r.2 == quantize_m(color.z.m as int),
    {
        let intensity = Interval::new(Fx::zero(), Fx::from_ratio(999, 1000));
        let cx = intensity.clamp(color.x);
        let cy = intensity.clamp(color.y);
        let cz = intensity.clamp(color.z);
        (((cx.m as u64) / 256) as u8, ((cy.m as u64) / 256) as u8, ((cz.m as u64) / 256) as u8)
    }

    /// Renders one scan line: for every pixel of row `y`, average
    /// `sample_count` independent path samples, gamma-correct and quantize.
    /// The row is `3 * width` bytes of RGB, exactly the bytes of
    /// `row_bytes_spec` at the generator's entry state.
    #[verifier::loop_isolation(false)]
    pub fn render_row(&self, camera: &Camera, scene: &Scene, y: u32, rng: &mut Rng) -> (row: Vec<
        u8,
    >)
        requires
            self.config.sample_count >= 1,
        ensures
            row@ == row_bytes_spec(
                *camera,
                *scene,
                self.config,
                y,
                self.config.resolution.0 as int,
                old(rng).state,
            ).0,
            final(rng).state == row_bytes_spec(
                *camera,
                *scene,
                self.config,
                y,
                self.config.resolution.0 as int,
                old(rng).state,
            ).1,
            row@.len() == 3 * self.config.resolution.0,
    {
        let ghost entry_state = rng.state;
        proof {
            lemma_row_bytes_step(*camera, *scene, self.config, y, 0, entry_state);
        }
        let width = self.config.resolution.width();
        let mut row: Vec<u8> = Vec::new();
        let mut x: u32 = 0;
        while x < width
            invariant
                x <= width,
                row@.len() == 3 * x,
                (row@, rng.state) == row_bytes_spec(
                    *camera,
                    *scene,
                    self.config,
                    y,
                    x as int,
                    entry_state,
                ),
            decreases width - x,
        {
            let ghost pixel_state = rng.state;
            let mut sample_sum_color = Vec3::zeros();
            let mut sample: u32 = 0;
            proof {
                lemma_sample_sum_step(
                    *camera,
                    *scene,
                    self.config.max_bounces,
                    x,
                    y,
                    0,
                    pixel_state,
                );
            }
            while sample < self.config.sample_count
                invariant
                    sample <= self.config.sample_count,
                    (sample_sum_color, rng.state) == sample_sum_spec(
                        *camera,
                        *scene,
                        self.config.max_bounces,
                        x,
                        y,
                        sample as int,
                        pixel_state,
                    ),
                decreases self.config.sample_count - sample,
            {
                let ray = camera.get_primary_ray(x, y, sample, rng);
                let color = Renderer::bounce_ray(
                    &ray,
                    scene,
                    camera.scene_depth_interval(),
                    self.config.max_bounces,
                    rng,
                );
                proof {
                    lemma_sample_sum_step(
                        *camera,
                        *scene,
                        self.config.max_bounces,
                        x,
                        y,
                        sample + 1,
                        pixel_state,
                    );
                }
                sample_sum_color = sample_sum_color.add(color);
                sample = sample + 1;
            }

            let color = sample_sum_color.div_scalar(Fx::from_int(self.config.sample_count as i64));
            let color = Renderer::rgb_to_gamma(color);
            let (red, green, blue) = Renderer::vec3_to_color(color);
            let ghost row_before = row@;
            row.push(red);
            row.push(green);
            row.push(blue);
            proof {
                lemma_row_bytes_step(*camera, *scene, self.config, y, x + 1, entry_state);
                assert(row@ =~= row_before + seq![red, green, blue]);
                assert(pixel_bytes_spec(*camera, *scene, self.config, x, y, pixel_state).0
                    =~= seq![red, green, blue]);
            }
            x = x + 1;
        }
        row
    }

    /// Renders the whole image into the output buffer: `height` rows of
    /// `3 * width` bytes each, top row first — exactly the bytes of
    /// `image_bytes_spec` at the generator's entry state.
    #[verifier::loop_isolation(false)]
    pub fn render(&mut self, camera: &Camera, scene: &Scene, rng: &mut Rng)
        requires
            old(self).config.sample_count >= 1,
        ensures
            final(self).config == old(self).config,
            final(self).render_target@ == image_bytes_spec(
                *camera,
                *scene,
                old(self).config,
                old(self).config.resolution.1 as int,
                old(rng).state,
            ).0,
            final(rng).state == image_bytes_spec(
                *camera,
                *scene,
                old(self).config,
                old(self).config.resolution.1 as int,
                old(rng).state,
            ).1,
            final(self).render_target@.len() == 3 * (old(self).config.resolution.0 as int) * (old(
                self,
            ).config.resolution.1 as int),
    {
        let ghost entry_state = rng.state;
        proof {
            lemma_image_bytes_step(*camera, *scene, self.config, 0, entry_state);
        }
        let (width, height) = self.config.resolution.dimensions();
        let mut target: Vec<u8> = Vec::new();
        let mut y: u32 = 0;
        while y < height
            invariant
                y <= height,
                target@.len() == 3 * (width as int) * (y as int),
                (target@, rng.state) == image_bytes_spec(
                    *camera,
                    *scene,
                    self.config,
                    y as int,
                    entry_state,
                ),
            decreases height - y,
        {
            let mut row = self.render_row(camera, scene, y, rng);
            proof {
                lemma_image_bytes_step(*camera, *scene, self.config, y + 1, entry_state);
                assert(3 * (width as int) * ((y + 1) as int) == 3 * (width as int) * (y as int) + 3
                    * (width as int)) by (nonlinear_arith) {}
            }
            target.append(&mut row);
            y = y + 1;
        }
        self.render_target = target;
    }
}

} // verus!
