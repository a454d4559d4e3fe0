//! The deterministic random source, samplers, camera and timer.

use raytracer::fixed::{Fx, FX_ONE};
use raytracer::vec3::Vec3;
use raytracer::interval::Interval;
use raytracer::camera::{Camera, FocusMode};
use raytracer::resolution::Resolution;
use raytracer::rng::Rng;
use raytracer::material::{random_vector, random_unit_vector};
use raytracer::timer::Timer;

#[test]
fn rng_is_reproducible_under_a_seed() {
    let mut a = Rng::new(42);
    let mut b = Rng::new(42);
    for _ in 0..16 {
        assert_eq!(a.next_unit(), b.next_unit());
    }
}

#[test]
fn rng_unit_draws_stay_in_unit_range() {
    let mut rng = Rng::new(7);
    for _ in 0..256 {
        let u = rng.next_unit();
        assert!(0 <= u.m && u.m < FX_ONE);
    }
}

#[test]
fn rng_range_draws_stay_in_range() {
    let mut rng = Rng::new(11);
    let min = Fx::from_int(-1);
    let max = Fx::one();
    for _ in 0..256 {
        let v = rng.next_range(min, max);
        assert!(min.m <= v.m && v.m < max.m);
    }
}

#[test]
fn rng_different_seeds_diverge() {
    let mut a = Rng::new(1);
    let mut b = Rng::new(2);
    let mut all_equal = true;
    for _ in 0..16 {
        if a.next_unit() != b.next_unit() {
            all_equal = false;
        }
    }
    assert!(!all_equal);
}

#[test]
fn random_vector_components_stay_in_range() {
    let mut rng = Rng::new(5);
    let min = Fx::from_int(-1);
    let max = Fx::one();
    for _ in 0..64 {
        let v = random_vector(&mut rng, min, max);
        assert!(min.m <= v.x.m && v.x.m < max.m);
        assert!(min.m <= v.y.m && v.y.m < max.m);
        assert!(min.m <= v.z.m && v.z.m < max.m);
    }
}

#[test]
fn random_unit_vector_is_roughly_unit_length() {
    let mut rng = Rng::new(13);
    for _ in 0..64 {
        let v = random_unit_vector(&mut rng);
        let mag2 = v.magnitude_squared();
        // Normalization in fixed point is inexact; the squared magnitude
        // stays near one.
        assert!(
            mag2.m > FX_ONE / 2 && mag2.m < 2 * FX_ONE,
            "magnitude squared mantissa {}",
            mag2.m
        );
    }
}

#[test]
fn pinhole_camera_rays_originate_at_the_position() {
    let resolution = Resolution::new(8, 8);
    let position = Vec3::from_ints(0, 2, 6);
    let camera = Camera::new(
        position,
        Vec3::from_ints(0, 1, 0),
        Fx::from_int(60),
        FocusMode::AutoFocus,
        Fx::zero(),
        Interval::new(Fx::from_ratio(1, 1000), Fx::from_int(100)),
        &resolution,
    );
    let mut rng = Rng::new(21);
    for sample in 0..8 {
        let ray = camera.get_primary_ray(3, 4, sample, &mut rng);
        assert_eq!(ray.origin, position);
    }
}

#[test]
fn camera_keeps_its_scene_depth_interval() {
    let resolution = Resolution::new(8, 8);
    let depth = Interval::new(Fx::from_ratio(1, 1000), Fx::from_int(100));
    let camera = Camera::new(
        Vec3::from_ints(0, 2, 6),
        Vec3::from_ints(0, 1, 0),
        Fx::from_int(60),
        FocusMode::Manual(Fx::from_int(3)),
        Fx::zero(),
        depth,
        &resolution,
    );
    let kept = camera.scene_depth_interval();
    assert_eq!(kept.min(), depth.min());
    assert_eq!(kept.max(), depth.max());
}

#[test]
fn defocus_camera_rays_leave_the_lens_disk() {
    let resolution = Resolution::new(8, 8);
    let position = Vec3::from_ints(0, 2, 6);
    let camera = Camera::new(
        position,
        Vec3::from_ints(0, 1, 0),
        Fx::from_int(60),
        FocusMode::AutoFocus,
        Fx::from_int(2),
        Interval::new(Fx::from_ratio(1, 1000), Fx::from_int(100)),
        &resolution,
    );
    let mut rng = Rng::new(21);
    let mut saw_offset = false;
    for sample in 0..16 {
        let ray = camera.get_primary_ray(3, 4, sample, &mut rng);
        if ray.origin != position {
            saw_offset = true;
        }
    }
    assert!(saw_offset);
}

#[test]
fn resolution_reports_its_dimensions() {
    let resolution = Resolution::new(1920, 1080);
    assert_eq!(resolution.width(), 1920);
    assert_eq!(resolution.height(), 1080);
    assert_eq!(resolution.dimensions(), (1920, 1080));
    // 1920 / 1080 in Q47.16: 65536 * 16 / 9, truncated.
    assert_eq!(resolution.aspect_ratio().m, 116508);
}

#[test]
fn timer_ticks_monotonically() {
    let mut timer = Timer::new();
    timer.tick();
    let first = timer.delta_time();
    timer.tick();
    let second = timer.delta_time();
    assert!(first.as_nanos() < 1_000_000_000);
    assert!(second.as_nanos() < 1_000_000_000);
}
