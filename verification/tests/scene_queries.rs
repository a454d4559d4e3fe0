//! Scene-level queries: nearest hit, occlusion, shadow light and sky.

use raytracer::fixed::Fx;
use raytracer::vec3::Vec3;
use raytracer::interval::Interval;
use raytracer::ray::Ray;
use raytracer::material::Material;
use raytracer::material::diffuse::LambertianDiffuse;
use raytracer::primitive::Shape;
use raytracer::primitive::sphere::Sphere;
use raytracer::light::radial_light::RadialLight;
use raytracer::scene::{Scene, SkyAttenuation};
use raytracer::rng::Rng;

fn gray() -> Material {
    Material::Lambertian(LambertianDiffuse::new(Vec3::from_ints(1, 1, 1)))
}

fn sky() -> SkyAttenuation {
    SkyAttenuation {
        light_color: Vec3::from_ints(1, 1, 1),
        sky_color: Vec3::from_ints(0, 0, 1),
    }
}

fn depth_interval() -> Interval {
    Interval::new(Fx::from_ratio(1, 100), Fx::max_value())
}

fn two_spheres_scene(reversed: bool) -> Scene {
    // Two spheres on the ray's path: the near one is hit at t = 4, the far
    // one at t = 7.
    let near = Shape::Ball(Sphere::new(Vec3::from_ints(0, 0, 0), Fx::from_int(1), gray()));
    let far = Shape::Ball(Sphere::new(Vec3::from_ints(0, 0, -3), Fx::from_int(1), gray()));
    let primitives = if reversed {
        vec![far, near]
    } else {
        vec![near, far]
    };
    Scene::new(sky(), primitives, Vec::new())
}

#[test]
fn scene_hit_returns_nearest_in_list_order() {
    let scene = two_spheres_scene(false);
    let ray = Ray::new(Vec3::from_ints(0, 0, 5), Vec3::from_ints(0, 0, -1));
    let hit = scene.hit(&ray, &depth_interval()).unwrap();
    assert_eq!(hit.depth, Fx::from_int(4));
}

#[test]
fn scene_hit_returns_nearest_in_reversed_order() {
    let scene = two_spheres_scene(true);
    let ray = Ray::new(Vec3::from_ints(0, 0, 5), Vec3::from_ints(0, 0, -1));
    let hit = scene.hit(&ray, &depth_interval()).unwrap();
    assert_eq!(hit.depth, Fx::from_int(4));
}

#[test]
fn scene_miss_reports_nothing() {
    let scene = two_spheres_scene(false);
    let ray = Ray::new(Vec3::from_ints(0, 0, 5), Vec3::from_ints(0, 1, 0));
    assert!(scene.hit(&ray, &depth_interval()).is_none());
}

#[test]
fn occlusion_sees_a_blocking_sphere() {
    let scene = two_spheres_scene(false);
    let toward_spheres = Ray::new(Vec3::from_ints(0, 0, 5), Vec3::from_ints(0, 0, -1));
    let away = Ray::new(Vec3::from_ints(0, 0, 5), Vec3::from_ints(0, 1, 0));
    assert!(scene.is_occluded(&toward_spheres, &depth_interval()));
    assert!(!scene.is_occluded(&away, &depth_interval()));
}

#[test]
fn sky_gradient_hits_both_ends() {
    let scene = Scene::new(sky(), Vec::new(), Vec::new());
    // Straight up: the interpolant is 1, giving the sky color.
    let up = Ray::new(Vec3::from_ints(0, 0, 0), Vec3::from_ints(0, 1, 0));
    assert_eq!(scene.get_sky_color(&up), Vec3::from_ints(0, 0, 1));
    // Straight down: the interpolant is 0, giving the light color.
    let down = Ray::new(Vec3::from_ints(0, 0, 0), Vec3::from_ints(0, -1, 0));
    assert_eq!(scene.get_sky_color(&down), Vec3::from_ints(1, 1, 1));
}

#[test]
fn radial_light_color_is_exact_head_on() {
    // Incidence along the normal, distance 1, intensity 2, white light:
    // the contribution is exactly (2, 2, 2).
    let light = RadialLight::new(
        Vec3::from_ints(0, 5, 0),
        Vec3::from_ints(1, 1, 1),
        Fx::from_int(1),
        Fx::from_int(2),
    );
    let c = light.color(&Vec3::from_ints(0, 1, 0), &Vec3::from_ints(0, 1, 0), Fx::from_int(1));
    assert_eq!(c, Vec3::from_ints(2, 2, 2));
}

#[test]
fn radial_light_clamps_negative_incidence() {
    // The light is behind the surface: the cosine term is negative and the
    // contribution is clamped to zero, never negative.
    let light = RadialLight::new(
        Vec3::from_ints(0, 5, 0),
        Vec3::from_ints(1, 1, 1),
        Fx::from_int(1),
        Fx::from_int(2),
    );
    let c = light.color(&Vec3::from_ints(0, -1, 0), &Vec3::from_ints(0, 1, 0), Fx::from_int(1));
    assert_eq!(c, Vec3::from_ints(0, 0, 0));
}

#[test]
fn radial_light_falloff_is_inverse_square() {
    let light = RadialLight::new(
        Vec3::from_ints(0, 5, 0),
        Vec3::from_ints(1, 1, 1),
        Fx::from_int(1),
        Fx::from_int(1),
    );
    assert_eq!(light.falloff_intensity(Fx::from_int(4)), Fx::from_ratio(1, 4));
}

#[test]
fn radial_light_position_targets_near_face() {
    // The deterministic part of position sampling: a sample pointing away
    // from the viewer is flipped onto the near face.
    let light = RadialLight::new(
        Vec3::from_ints(0, 0, -10),
        Vec3::from_ints(1, 1, 1),
        Fx::from_int(1),
        Fx::from_int(1),
    );
    let viewer = Vec3::from_ints(0, 0, 0);
    // This sample points further away from the viewer (toward -z).
    let away_sample = Vec3::from_ints(0, 0, -1);
    assert_eq!(light.position_with(&viewer, away_sample), Vec3::from_ints(0, 0, -9));
    // This one already faces the viewer and is kept.
    let near_sample = Vec3::from_ints(0, 0, 1);
    assert_eq!(light.position_with(&viewer, near_sample), Vec3::from_ints(0, 0, -9));
}

#[test]
fn unoccluded_light_contributes_and_blocked_light_does_not() {
    let surface_hit = raytracer::ray_hit::RayHit {
        depth: Fx::from_int(1),
        position: Vec3::from_ints(0, 0, 0),
        hit_type: raytracer::ray_hit::HitType::FrontFace,
        normal: Vec3::from_ints(0, 1, 0),
        material: gray(),
    };
    let light = RadialLight::new(
        Vec3::from_ints(0, 10, 0),
        Vec3::from_ints(1, 1, 1),
        Fx::zero(),
        Fx::from_int(100),
    );

    // Open scene: the light reaches the surface.
    let open_scene = Scene::new(sky(), Vec::new(), vec![light]);
    let mut rng = Rng::new(3);
    let lit = open_scene.shadow_ray(&surface_hit, &depth_interval(), &mut rng);
    assert!(lit.x.m > 0 && lit.y.m > 0 && lit.z.m > 0);

    // A sphere between the surface and the light blocks it completely.
    let blocker = Shape::Ball(Sphere::new(Vec3::from_ints(0, 5, 0), Fx::from_int(1), gray()));
    let blocked_scene = Scene::new(sky(), vec![blocker], vec![light]);
    let mut rng = Rng::new(3);
    let dark = blocked_scene.shadow_ray(&surface_hit, &depth_interval(), &mut rng);
    assert_eq!(dark, Vec3::from_ints(0, 0, 0));
}
