//! Rays, intervals, spheres and planes on exact fixed-point values.

use raytracer::fixed::Fx;
use raytracer::vec3::Vec3;
use raytracer::interval::Interval;
use raytracer::ray::Ray;
use raytracer::ray_hit::HitType;
use raytracer::material::Material;
use raytracer::material::diffuse::LambertianDiffuse;
use raytracer::primitive::sphere::Sphere;
use raytracer::primitive::plane::{Plane, Rectangle};

fn black() -> Material {
    Material::Lambertian(LambertianDiffuse::new(Vec3::from_ints(0, 0, 0)))
}

fn depth_interval() -> Interval {
    Interval::new(Fx::from_ratio(1, 100), Fx::max_value())
}

#[test]
fn test_ray_at() {
    let ray = Ray::new(Vec3::from_ints(0, 0, 0), Vec3::from_ints(0, 1, 0));

    assert_eq!(ray.at(Fx::from_int(2)), Vec3::from_ints(0, 2, 0));
    assert_eq!(ray.at(Fx::from_int(-2)), Vec3::from_ints(0, -2, 0));
}

#[test]
fn test_empty() {
    let interval = Interval::empty();
    assert!(!interval.contains(Fx::from_int(0)))
}

#[test]
fn test_universe() {
    let interval = Interval::universe();
    assert!(interval.contains(Fx::from_int(0)))
}

#[test]
fn test_contains() {
    let interval = Interval::new(Fx::from_int(0), Fx::from_int(10));
    assert!(interval.contains(Fx::from_int(5)));
    assert!(interval.contains(Fx::from_int(0)));
    assert!(interval.contains(Fx::from_int(10)));
    assert!(!interval.contains(Fx::from_int(-42)));
}

#[test]
fn test_surrounds() {
    let interval = Interval::new(Fx::from_int(0), Fx::from_int(10));
    assert!(interval.surrounds(Fx::from_int(5)));
    assert!(!interval.surrounds(Fx::from_int(0)));
    assert!(!interval.surrounds(Fx::from_int(10)));
    assert!(!interval.surrounds(Fx::from_int(-42)));
}

#[test]
fn test_interval_clamp() {
    let interval = Interval::new(Fx::from_int(0), Fx::from_int(10));
    assert_eq!(interval.clamp(Fx::from_int(-3)), Fx::from_int(0));
    assert_eq!(interval.clamp(Fx::from_int(3)), Fx::from_int(3));
    assert_eq!(interval.clamp(Fx::from_int(30)), Fx::from_int(10));
}

#[test]
fn sphere_test_intersect() {
    let sphere = Sphere::new(Vec3::from_ints(0, 0, 0), Fx::from_int(1), black());

    let ray = Ray::new(Vec3::from_ints(0, 2, 0), Vec3::from_ints(0, -1, 0));
    assert!(sphere.hit(&ray, &depth_interval()).is_some())
}

#[test]
fn test_intersect_inside() {
    let sphere = Sphere::new(Vec3::from_ints(0, 0, 0), Fx::from_int(1), black());

    let ray = Ray::new(Vec3::from_ints(0, 0, 0), Vec3::from_ints(0, -1, 0));
    assert!(sphere.hit(&ray, &depth_interval()).is_some())
}

#[test]
fn sphere_test_miss() {
    let sphere = Sphere::new(Vec3::from_ints(0, 0, 0), Fx::from_int(1), black());

    let ray = Ray::new(Vec3::from_ints(0, 2, 0), Vec3::from_ints(0, 1, 0));
    assert!(sphere.hit(&ray, &depth_interval()).is_none())
}

#[test]
fn sphere_hit_is_exact_from_above() {
    // A unit sphere at the origin, hit straight down from (0, 2, 0): the
    // intersection is exactly at t = 1, position (0, 1, 0), with the
    // outward normal (0, 1, 0) and a front face.
    let sphere = Sphere::new(Vec3::from_ints(0, 0, 0), Fx::from_int(1), black());
    let ray = Ray::new(Vec3::from_ints(0, 2, 0), Vec3::from_ints(0, -1, 0));

    let hit = sphere.hit(&ray, &depth_interval()).unwrap();
    assert_eq!(hit.depth, Fx::from_int(1));
    assert_eq!(hit.position, Vec3::from_ints(0, 1, 0));
    assert_eq!(hit.normal, Vec3::from_ints(0, 1, 0));
    assert!(matches!(hit.hit_type, HitType::FrontFace));
}

#[test]
fn sphere_hit_from_inside_flips_normal() {
    // From the center of the unit sphere, the far intersection at t = 1 is
    // reported as a back face with the normal flipped to oppose the ray.
    let sphere = Sphere::new(Vec3::from_ints(0, 0, 0), Fx::from_int(1), black());
    let ray = Ray::new(Vec3::from_ints(0, 0, 0), Vec3::from_ints(0, -1, 0));

    let hit = sphere.hit(&ray, &depth_interval()).unwrap();
    assert_eq!(hit.depth, Fx::from_int(1));
    assert_eq!(hit.position, Vec3::from_ints(0, -1, 0));
    assert_eq!(hit.normal, Vec3::from_ints(0, 1, 0));
    assert!(matches!(hit.hit_type, HitType::BackFace));
}

#[test]
fn plane_test_intersect() {
    let plane = Plane::new(Vec3::from_ints(0, 0, 0), Vec3::from_ints(0, 1, 0), black());

    let ray = Ray::new(Vec3::from_ints(0, 1, 0), Vec3::from_ints(0, -1, 0));
    assert!(plane.hit(&ray, &depth_interval()).is_some())
}

#[test]
fn test_intersect_below() {
    let plane = Plane::new(Vec3::from_ints(0, 0, 0), Vec3::from_ints(0, 1, 0), black());

    let ray = Ray::new(Vec3::from_ints(0, -1, 0), Vec3::from_ints(0, 1, 0));
    assert!(plane.hit(&ray, &depth_interval()).is_some())
}

#[test]
fn plane_test_miss() {
    let plane = Plane::new(Vec3::from_ints(0, 0, 0), Vec3::from_ints(0, 1, 0), black());

    let ray = Ray::new(Vec3::from_ints(0, 1, 0), Vec3::from_ints(1, 0, 0));
    assert!(plane.hit(&ray, &depth_interval()).is_none())
}

#[test]
fn plane_hit_depth_is_exact() {
    let plane = Plane::new(Vec3::from_ints(0, 0, 0), Vec3::from_ints(0, 1, 0), black());
    let ray = Ray::new(Vec3::from_ints(0, 1, 0), Vec3::from_ints(0, -1, 0));

    let hit = plane.hit(&ray, &depth_interval()).unwrap();
    assert_eq!(hit.depth, Fx::from_int(1));
    assert_eq!(hit.position, Vec3::from_ints(0, 0, 0));
    assert_eq!(hit.normal, Vec3::from_ints(0, 1, 0));
}

#[test]
fn rectangle_bounds_reject_far_hits() {
    let rectangle = Rectangle::new(
        Vec3::from_ints(0, 0, 0),
        Vec3::from_ints(0, 1, 0),
        Fx::from_int(1),
        Fx::from_int(1),
        black(),
    );

    // Straight down onto the anchor point: inside the extent.
    let center_ray = Ray::new(Vec3::from_ints(0, 1, 0), Vec3::from_ints(0, -1, 0));
    assert!(rectangle.hit(&center_ray, &depth_interval()).is_some());

    // Straight down far along x: the projection exceeds the unit bound.
    let far_ray = Ray::new(Vec3::from_ints(5, 1, 0), Vec3::from_ints(0, -1, 0));
    assert!(rectangle.hit(&far_ray, &depth_interval()).is_none());
}
