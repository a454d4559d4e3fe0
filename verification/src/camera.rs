//! The camera: maps pixel coordinates and lens/antialiasing randomness to
//! world-space rays.

use vstd::prelude::*;
use crate::fixed::{
    Fx, FX_ONE, fx_mul_m, fx_div_m, fx_neg_m, fx_tan_series, fx_to_radians,
};
use crate::vec3::{Vec3, fx, vadd, vsub, vscale, vdiv, vcross, vnormalize, vmag_m, vmag2_m};
use crate::interval::Interval;
use crate::ray::Ray;
use crate::resolution::Resolution;
use crate::rng::{Rng, lcg_next, range_draw_m};

verus! {

/// The world's vertical axis.
pub open spec fn world_up() -> Vec3 {
    Vec3 { x: fx(0), y: fx(FX_ONE as int), z: fx(0) }
}

/// The per-pixel viewport step vectors.
#[derive(Clone, Copy, Debug)]
pub struct PixelDelta(pub Vec3, pub Vec3);

impl PixelDelta {
    pub fn new(delta_u: Vec3, delta_v: Vec3) -> (r: PixelDelta)
        ensures
            r.0 == delta_u,
            r.1 == delta_v,
    {
        PixelDelta(delta_u, delta_v)
    }

    pub fn u(&self) -> (r: Vec3)
        ensures
            r == self.0,
    {
        self.0
    }

    pub fn v(&self) -> (r: Vec3)
        ensures
            r == self.1,
    {
        self.1
    }
}

/// The camera's orthonormal-in-intent basis: a forward vector and an up
/// vector; the right vector is their cross product.
#[derive(Clone, Copy, Debug)]
pub struct CameraVectors {
    pub forward: Vec3,
    pub up: Vec3,
}

/// The right vector of a camera basis.
pub open spec fn camera_right_spec(cv: CameraVectors) -> Vec3 {
    vcross(cv.forward, cv.up)
}

impl CameraVectors {
    pub fn forward(&self) -> (r: Vec3)
        ensures
            r == self.forward,
    {
        self.forward
    }

    pub fn up(&self) -> (r: Vec3)
        ensures
            r == self.up,
    {
        self.up
    }

    pub fn right(&self) -> (r: Vec3)
        ensures
            r == camera_right_spec(*self),
    {
        self.forward.cross(self.up)
    }
}

/// The view plane: the viewport's top-left corner and the per-pixel steps.
#[derive(Clone, Copy, Debug)]
pub struct ViewPlane {
    pub viewport_top_left: Vec3,
    pub pixel_delta: PixelDelta,
}

/// The view plane derived from the camera configuration: viewport edge
/// vectors scaled from the basis, per-pixel deltas from the resolution, and
/// the top-left corner one focal length ahead of the position.
pub open spec fn view_plane_spec(
    position: Vec3,
    focal_length: Fx,
    camera_vectors: CameraVectors,
    viewport_width: Fx,
    viewport_height: Fx,
    resolution: Resolution,
) -> ViewPlane {
    let vec_u = vscale(viewport_width, camera_vectors.up);
    let vec_v = vscale(fx(fx_neg_m(viewport_height.m as int)), camera_right_spec(camera_vectors));
    let pixel_delta_u = vdiv(vec_u, Fx::from_int_spec(resolution.0 as i64));
    let pixel_delta_v = vdiv(vec_v, Fx::from_int_spec(resolution.1 as i64));
    let two = Fx::from_int_spec(2);
    let viewport_top_left = vsub(
        vsub(vsub(position, vscale(focal_length, camera_vectors.forward)), vdiv(vec_u, two)),
        vdiv(vec_v, two),
    );
    ViewPlane { viewport_top_left, pixel_delta: PixelDelta(pixel_delta_u, pixel_delta_v) }
}

/// The offset of viewport coordinates (x, y) from the top-left corner.
pub open spec fn pixel_offset_spec(vp: ViewPlane, x: Fx, y: Fx) -> Vec3 {
    vadd(vscale(x, vp.pixel_delta.0), vscale(y, vp.pixel_delta.1))
}

/// The center of the pixel at viewport coordinates (x, y).
pub open spec fn pixel_center_spec(vp: ViewPlane, x: Fx, y: Fx) -> Vec3 {
    vadd(vp.viewport_top_left, pixel_offset_spec(vp, x, y))
}

impl ViewPlane {
    pub fn new(
        position: &Vec3,
        focal_length: Fx,
        camera_vectors: &CameraVectors,
        viewport_width: Fx,
        viewport_height: Fx,
        resolution: &Resolution,
    ) -> (r: ViewPlane)
        ensures
            r == view_plane_spec(
                *position,
                focal_length,
                *camera_vectors,
                viewport_width,
                viewport_height,
                *resolution,
            ),
    {
        let vec_u = camera_vectors.up().scale(viewport_width);
        let vec_v = camera_vectors.right().scale(viewport_height.neg());

        let pixel_delta_u = vec_u.div_scalar(Fx::from_int(resolution.width() as i64));
        let pixel_delta_v = vec_v.div_scalar(Fx::from_int(resolution.height() as i64));
        let two = Fx::from_int(2);
        let viewport_top_left = position.sub(camera_vectors.forward().scale(focal_length)).sub(
            vec_u.div_scalar(two),
        ).sub(vec_v.div_scalar(two));

        ViewPlane {
            viewport_top_left,
            pixel_delta: PixelDelta::new(pixel_delta_u, pixel_delta_v),
        }
    }

    pub fn get_pixel_center(&self, x: Fx, y: Fx) -> (r: Vec3)
        ensures
            r == pixel_center_spec(*self, x, y),
    {
        self.viewport_top_left.add(self.get_pixel_offset(x, y))
    }

    pub fn get_pixel_offset(&self, x: Fx, y: Fx) -> (r: Vec3)
        ensures
            r == pixel_offset_spec(*self, x, y),
    {
        self.pixel_delta.u().scale(x).add(self.pixel_delta.v().scale(y))
    }
}

/// The thin-lens aperture: a defocus angle and the disk radius it spans at
/// the focal distance.
#[derive(Clone, Copy, Debug)]
pub struct DefocusDisk {
    pub angle: Fx,
    pub radius: Fx,
}

/// The disk radius: `focal_length * tan(angle / 2)`.
pub open spec fn defocus_radius_spec(angle: Fx, focal_length: Fx) -> Fx {
    let half_angle = fx(fx_div_m(angle.m as int, 2 * (FX_ONE as int)));
    fx(fx_mul_m(focal_length.m as int, fx_tan_series(fx_to_radians(half_angle)).m as int))
}

/// A lens offset built from a unit-disk sample: the sample's x along the
/// scaled right vector plus its y along the scaled (negated) up vector.
pub open spec fn defocus_sample_spec(
    disk: DefocusDisk,
    camera_vectors: CameraVectors,
    random_sample: Vec3,
) -> Vec3 {
    let disk_u = vscale(disk.radius, camera_right_spec(camera_vectors));
    let disk_v = vscale(fx(fx_neg_m(disk.radius.m as int)), camera_vectors.up);
    vadd(vscale(random_sample.x, disk_u), vscale(random_sample.y, disk_v))
}

/// The xy-plane vector two successive range draws at state `s` produce.
pub open spec fn disk_vector_spec(s: u64) -> Vec3 {
    Vec3 {
        x: fx(range_draw_m(s, fx(-(FX_ONE as int)), fx(FX_ONE as int))),
        y: fx(range_draw_m(lcg_next(s), fx(-(FX_ONE as int)), fx(FX_ONE as int))),
        z: fx(0),
    }
}

/// Mirror of the bounded rejection loop behind `random_in_unit_disk`: draw
/// a point of the square at the current state; keep it if it falls inside
/// the unit disk, otherwise retry; the center when the attempts run out.
#[verifier::opaque]
pub open spec fn disk_sample_spec(s: u64, tries: nat) -> (Vec3, u64)
    decreases tries,
{
    if tries == 0 {
        (Vec3 { x: fx(0), y: fx(0), z: fx(0) }, s)
    } else {
        let v = disk_vector_spec(s);
        let s2 = lcg_next(lcg_next(s));
        if vmag2_m(v) < FX_ONE {
            (v, s2)
        } else {
            disk_sample_spec(s2, (tries - 1) as nat)
        }
    }
}

/// One round of the disk-sampling rejection loop, seen from the
/// specification.
pub proof fn lemma_disk_sample_step(s: u64, tries: nat)
    ensures
        tries == 0 ==> disk_sample_spec(s, tries) == ((Vec3 { x: fx(0), y: fx(0), z: fx(0) }), s),
        tries > 0 ==> ({
            let v = disk_vector_spec(s);
            let s2 = lcg_next(lcg_next(s));
            if vmag2_m(v) < FX_ONE {
                disk_sample_spec(s, tries) == (v, s2)
            } else {
                disk_sample_spec(s, tries) == disk_sample_spec(s2, (tries - 1) as nat)
            }
        }),
{
    reveal_with_fuel(disk_sample_spec, 1);
}

/// Whatever the state and budget, the sample lies in the unit disk of the
/// xy plane.
pub proof fn lemma_disk_sample_in_disk(s: u64, tries: nat)
    ensures
        disk_sample_spec(s, tries).0.z.m == 0,
        vmag2_m(disk_sample_spec(s, tries).0) < FX_ONE,
    decreases tries,
{
    lemma_disk_sample_step(s, tries);
    if tries == 0 {
    } else {
        let v = disk_vector_spec(s);
        if vmag2_m(v) < FX_ONE {
        } else {
            lemma_disk_sample_in_disk(lcg_next(lcg_next(s)), (tries - 1) as nat);
        }
    }
}

impl DefocusDisk {
    pub fn new(angle: Fx, focal_length: Fx) -> (r: DefocusDisk)
        ensures
            r.angle == angle,
            r.radius == defocus_radius_spec(angle, focal_length),
    {
        let radius = focal_length.mul(angle.div(Fx::from_int(2)).to_radians().tan_approx());
        DefocusDisk { angle, radius }
    }

    pub fn angle(&self) -> (r: Fx)
        ensures
            r == self.angle,
    {
        self.angle
    }

    /// The deterministic part of lens sampling.
    pub fn sample_with(&self, camera_vectors: &CameraVectors, random_sample: Vec3) -> (r: Vec3)
        ensures
            r == defocus_sample_spec(*self, *camera_vectors, random_sample),
    {
        let disk_u = camera_vectors.right().scale(self.radius);
        let disk_v = camera_vectors.up().scale(self.radius.neg());
        disk_u.scale(random_sample.x).add(disk_v.scale(random_sample.y))
    }

    /// A lens offset from a fresh unit-disk sample, pinned to the
    /// generator's entry state.
    pub fn sample(&self, camera_vectors: &CameraVectors, rng: &mut Rng) -> (r: Vec3)
        ensures
            r == defocus_sample_spec(
                *self,
                *camera_vectors,
                disk_sample_spec(old(rng).state, 64).0,
            ),
            final(rng).state == disk_sample_spec(old(rng).state, 64).1,
            exists|s: Vec3|
                s.z.m == 0 && vmag2_m(s) < FX_ONE && r == #[trigger] defocus_sample_spec(
                    *self,
                    *camera_vectors,
                    s,
                ),
    {
        let ghost entry_state = rng.state;
        let random_sample = self.random_in_unit_disk(rng);
        let r = self.sample_with(camera_vectors, random_sample);
        proof {
            lemma_disk_sample_in_disk(entry_state, 64);
            assert(r == defocus_sample_spec(*self, *camera_vectors, random_sample));
        }
        r
    }

    /// A point in the unit disk of the xy plane, by bounded rejection
    /// sampling; if every draw is rejected the center is used. The result
    /// and the generator's final state are exactly those of
    /// `disk_sample_spec` at the entry state.
    #[verifier::loop_isolation(false)]
    fn random_in_unit_disk(&self, rng: &mut Rng) -> (r: Vec3)
        ensures
            r == disk_sample_spec(old(rng).state, 64).0,
            final(rng).state == disk_sample_spec(old(rng).state, 64).1,
            r.z.m == 0,
            vmag2_m(r) < FX_ONE,
    {
        let ghost entry_state = rng.state;
        proof {
            lemma_disk_sample_in_disk(entry_state, 64);
        }
        let minus_one = Fx::from_int(-1);
        let one = Fx::one();
        let mut tries: u32 = 0;
        while tries < 64
            invariant
                tries <= 64,
                disk_sample_spec(entry_state, 64) == disk_sample_spec(
                    rng.state,
                    (64 - tries) as nat,
                ),
            decreases 64 - tries,
        {
            let ghost round_state = rng.state;
            let v = Vec3::new(
                rng.next_range(minus_one, one),
                rng.next_range(minus_one, one),
                Fx::zero(),
            );
            proof {
                lemma_disk_sample_step(round_state, (64 - tries) as nat);
            }
            if v.magnitude_squared().m < FX_ONE {
                return v;
            }
            tries = tries + 1;
        }
        proof {
            lemma_disk_sample_step(rng.state, 0);
        }
        Vec3::zeros()
    }
}

/// How the focal length is chosen: from the distance to the look-at point,
/// or set by hand.
pub enum FocusMode {
    AutoFocus,
    Manual(Fx),
}

/// The focal length a focus mode yields.
pub open spec fn focal_length_spec(position: Vec3, look_at: Vec3, focus_mode: FocusMode) -> Fx {
    match focus_mode {
        FocusMode::AutoFocus => fx(vmag_m(vsub(look_at, position))),
        FocusMode::Manual(length) => length,
    }
}

/// Viewport width and height: `height = 2 * tan(fov/2) * focal_length`,
/// `width = height * aspect_ratio`.
pub open spec fn viewport_extent_spec(vertical_fov: Fx, focal_length: Fx, resolution: Resolution)
    -> (Fx, Fx) {
    let fov_radians = fx_to_radians(vertical_fov);
    let height = fx_tan_series(fx(fx_div_m(fov_radians.m as int, 2 * (FX_ONE as int))));
    let viewport_height = fx(
        fx_mul_m(fx_mul_m(2 * (FX_ONE as int), height.m as int), focal_length.m as int),
    );
    let viewport_width = fx(
        fx_mul_m(viewport_height.m as int, fx_div_m(resolution.0 as int, resolution.1 as int)),
    );
    (viewport_width, viewport_height)
}

/// The basis a camera derives from its position and look-at point: the
/// normalized view direction and a normalized up vector, so the
/// (forward, up, right) triple is orthonormal up to the representation's
/// rounding.
pub open spec fn camera_vectors_spec(position: Vec3, look_at: Vec3) -> CameraVectors {
    let forward = vnormalize(vsub(position, look_at));
    CameraVectors { forward, up: vnormalize(vcross(world_up(), forward)) }
}

/// The antialiasing offset drawn at state `s`: a uniform draw in [0, 1)
/// shifted down by one half, giving a pixel-unit offset in [-1/2, 1/2).
pub open spec fn pixel_jitter_m(s: u64) -> int {
    crate::fixed::fx_sub_m(range_draw_m(s, fx(0), fx(FX_ONE as int)), fx_div_m(1, 2))
}

/// The primary ray for pixel (x, y) when the generator is at state `s`:
/// a sampled position inside the pixel, an origin on the lens (the pinhole
/// position when no defocus angle is set), and the normalized direction
/// from the one to the other.
pub open spec fn primary_ray_spec(cam: Camera, x: u32, y: u32, s: u64) -> (Ray, u64) {
    let center = pixel_center_spec(
        cam.view_plane,
        Fx::from_int_spec(x as i64),
        Fx::from_int_spec(y as i64),
    );
    let sampled = vadd(
        center,
        pixel_offset_spec(
            cam.view_plane,
            fx(pixel_jitter_m(s)),
            fx(pixel_jitter_m(lcg_next(s))),
        ),
    );
    let s2 = lcg_next(lcg_next(s));
    if cam.defocus_disk.angle.m <= 0 {
        (
            Ray {
                origin: cam.position,
                direction: vnormalize(vsub(sampled, cam.position)),
            },
            s2,
        )
    } else {
        let lens = disk_sample_spec(s2, 64);
        let origin = vadd(
            cam.position,
            defocus_sample_spec(cam.defocus_disk, cam.camera_vectors, lens.0),
        );
        (Ray { origin, direction: vnormalize(vsub(sampled, origin)) }, lens.1)
    }
}

/// A camera: position, view plane, lens, basis and the depth interval its
/// scene queries use.
pub struct Camera {
    pub position: Vec3,
    pub scene_depth: Interval,
    pub view_plane: ViewPlane,
    pub defocus_disk: DefocusDisk,
    pub camera_vectors: CameraVectors,
}

impl Camera {
    pub fn new(
        position: Vec3,
        look_at: Vec3,
        vertical_fov: Fx,
        focus_mode: FocusMode,
        defocus_angle: Fx,
        scene_depth: Interval,
        resolution: &Resolution,
    ) -> (r: Camera)
        ensures
            r.position == position,
            r.scene_depth == scene_depth,
            r.camera_vectors == camera_vectors_spec(position, look_at),
            r.view_plane == view_plane_spec(
                position,
                focal_length_spec(position, look_at, focus_mode),
                camera_vectors_spec(position, look_at),
                viewport_extent_spec(
                    vertical_fov,
                    focal_length_spec(position, look_at, focus_mode),
                    *resolution,
                ).0,
                viewport_extent_spec(
                    vertical_fov,
                    focal_length_spec(position, look_at, focus_mode),
                    *resolution,
                ).1,
                *resolution,
            ),
            r.defocus_disk.angle == defocus_angle,
            r.defocus_disk.radius == defocus_radius_spec(
                defocus_angle,
                focal_length_spec(position, look_at, focus_mode),
            ),
    {
        let focal_length = match focus_mode {
            FocusMode::AutoFocus => look_at.sub(position).magnitude(),
            FocusMode::Manual(length) => length,
        };

        let (viewport_width, viewport_height) = Camera::calculate_viewport_extent(
            vertical_fov,
            focal_length,
            resolution,
        );

        let forward = position.sub(look_at).normalize();
        let world_up_vec = Vec3::new(Fx::zero(), Fx::one(), Fx::zero());
        let up = world_up_vec.cross(forward).normalize();
        let camera_vectors = CameraVectors { forward, up };

        let view_plane = ViewPlane::new(
            &position,
            focal_length,
            &camera_vectors,
            viewport_width,
            viewport_height,
            resolution,
        );
        let defocus_disk = DefocusDisk::new(defocus_angle, focal_length);

        Camera { position, scene_depth, view_plane, defocus_disk, camera_vectors }
    }

    pub fn scene_depth_interval(&self) -> (r: &Interval)
        ensures
            *r == self.scene_depth,
    {
        &self.scene_depth
    }

    pub fn get_pixel_center(&self, x: u32, y: u32) -> (r: Vec3)
        ensures
            r == pixel_center_spec(
                self.view_plane,
                Fx::from_int_spec(x as i64),
                Fx::from_int_spec(y as i64),
            ),
    {
        self.view_plane.get_pixel_center(Fx::from_int(x as i64), Fx::from_int(y as i64))
    }

    /// A sample position inside the pixel: the center plus a uniform offset
    /// in [-1/2, 1/2) pixel units along both delta axes.
    pub fn sample_pixel(&self, pixel_center: Vec3, _sample_num: u32, rng: &mut Rng) -> (r: Vec3)
        ensures
            r == vadd(
                pixel_center,
                pixel_offset_spec(
                    self.view_plane,
                    fx(pixel_jitter_m(old(rng).state)),
                    fx(pixel_jitter_m(lcg_next(old(rng).state))),
                ),
            ),
            final(rng).state == lcg_next(lcg_next(old(rng).state)),
            exists|a: Fx, b: Fx|
                -(FX_ONE as int) / 2 <= a.m < (FX_ONE as int) / 2 && -(FX_ONE as int) / 2 <= b.m
                    < (FX_ONE as int) / 2 && r == vadd(
                    pixel_center,
                    #[trigger] pixel_offset_spec(self.view_plane, a, b),
                ),
    {
        let half = Fx::from_ratio(1, 2);
        let x_offset = rng.next_range(Fx::zero(), Fx::one()).sub(half);
        let y_offset = rng.next_range(Fx::zero(), Fx::one()).sub(half);

        let sample_offset = self.view_plane.get_pixel_offset(x_offset, y_offset);
        let r = pixel_center.add(sample_offset);
        proof {
            assert(r == vadd(pixel_center, pixel_offset_spec(self.view_plane, x_offset, y_offset)));
        }
        r
    }

    /// The origin of a primary ray: the pinhole position, or a point on the
    /// defocus disk when a positive defocus angle is set.
    pub fn get_ray_origin(&self, rng: &mut Rng) -> (r: Vec3)
        ensures
            self.defocus_disk.angle.m <= 0 ==> r == self.position && final(rng).state == old(
                rng,
            ).state,
            self.defocus_disk.angle.m > 0 ==> r == vadd(
                self.position,
                defocus_sample_spec(
                    self.defocus_disk,
                    self.camera_vectors,
                    disk_sample_spec(old(rng).state, 64).0,
                ),
            ) && final(rng).state == disk_sample_spec(old(rng).state, 64).1,
            self.defocus_disk.angle.m > 0 ==> exists|s: Vec3|
                s.z.m == 0 && vmag2_m(s) < FX_ONE && r == vadd(
                    self.position,
                    #[trigger] defocus_sample_spec(self.defocus_disk, self.camera_vectors, s),
                ),
    {
        if self.defocus_disk.angle().m <= 0 {
            self.position
        } else {
            self.position.add(self.defocus_disk.sample(&self.camera_vectors, rng))
        }
    }

    /// The primary ray for a pixel and sample index: a sampled position in
    /// the pixel, an origin on the lens, and the normalized direction from
    /// the one to the other.
    pub fn get_primary_ray(&self, x: u32, y: u32, sample_num: u32, rng: &mut Rng) -> (r: Ray)
        ensures
            r == primary_ray_spec(*self, x, y, old(rng).state).0,
            final(rng).state == primary_ray_spec(*self, x, y, old(rng).state).1,
            self.defocus_disk.angle.m <= 0 ==> r.origin == self.position,
            exists|target: Vec3| r.direction == #[trigger] vnormalize(vsub(target, r.origin)),
    {
        let pixel_center = self.get_pixel_center(x, y);
        let sampled = self.sample_pixel(pixel_center, sample_num, rng);
        let origin = self.get_ray_origin(rng);
        let direction = sampled.sub(origin).normalize();
        proof {
            assert(direction == vnormalize(vsub(sampled, origin)));
        }
        Ray::new(origin, direction)
    }

    /// Viewport width and height from the field of view, the focal length
    /// and the output aspect ratio.
    fn calculate_viewport_extent(vertical_fov: Fx, focal_length: Fx, resolution: &Resolution)
        -> (r: (Fx, Fx))
        ensures
            r == viewport_extent_spec(vertical_fov, focal_length, *resolution),
    {
        let fov_radians = vertical_fov.to_radians();
        let height = fov_radians.div(Fx::from_int(2)).tan_approx();

        let viewport_height = Fx::from_int(2).mul(height).mul(focal_length);
        let viewport_width = viewport_height.mul(resolution.aspect_ratio());

        (viewport_width, viewport_height)
    }
}

} // verus!
