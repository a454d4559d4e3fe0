//! The integrator, tone mapping, quantization and full renders.

use raytracer::fixed::Fx;
use raytracer::vec3::Vec3;
use raytracer::interval::Interval;
use raytracer::ray::Ray;
use raytracer::camera::{Camera, FocusMode};
use raytracer::material::Material;
use raytracer::material::diffuse::LambertianDiffuse;
use raytracer::material::emissive::Emissive;
use raytracer::primitive::Shape;
use raytracer::primitive::plane::{Plane, Rectangle};
use raytracer::primitive::sphere::Sphere;
use raytracer::renderer::{Renderer, RendererConfig};
use raytracer::resolution::Resolution;
use raytracer::scene::{Scene, SkyAttenuation};
use raytracer::rng::Rng;

fn sky() -> SkyAttenuation {
    SkyAttenuation {
        light_color: Vec3::from_ints(1, 1, 1),
        sky_color: Vec3::from_ints(0, 0, 1),
    }
}

fn depth_interval() -> Interval {
    Interval::new(Fx::from_ratio(1, 100), Fx::from_int(100))
}

#[test]
fn bounce_with_no_budget_is_black() {
    let scene = Scene::new(sky(), Vec::new(), Vec::new());
    let ray = Ray::new(Vec3::from_ints(0, 0, 0), Vec3::from_ints(0, 1, 0));
    let mut rng = Rng::new(1);
    let c = Renderer::bounce_ray(&ray, &scene, &depth_interval(), 0, &mut rng);
    assert_eq!(c, Vec3::from_ints(0, 0, 0));
}

#[test]
fn bounce_miss_returns_sky() {
    let scene = Scene::new(sky(), Vec::new(), Vec::new());
    let up = Ray::new(Vec3::from_ints(0, 0, 0), Vec3::from_ints(0, 1, 0));
    let mut rng = Rng::new(1);
    let c = Renderer::bounce_ray(&up, &scene, &depth_interval(), 4, &mut rng);
    assert_eq!(c, Vec3::from_ints(0, 0, 1));
}

#[test]
fn bounce_into_emitter_returns_emission() {
    let patch = Shape::Ball(Sphere::new(
        Vec3::from_ints(0, 3, 0),
        Fx::from_int(1),
        Material::Emitter(Emissive::new(Vec3::from_ints(1, 1, 0), Fx::from_int(5))),
    ));
    let scene = Scene::new(sky(), vec![patch], Vec::new());
    let ray = Ray::new(Vec3::from_ints(0, 0, 0), Vec3::from_ints(0, 1, 0));
    let mut rng = Rng::new(1);
    let c = Renderer::bounce_ray(&ray, &scene, &depth_interval(), 4, &mut rng);
    assert_eq!(c, Vec3::from_ints(5, 5, 0));
}

#[test]
fn gamma_is_a_square_root_per_channel() {
    let c = Renderer::rgb_to_gamma(Vec3::new(
        Fx::from_ratio(1, 4),
        Fx::from_int(1),
        Fx::from_int(4),
    ));
    assert_eq!(c, Vec3::new(Fx::from_ratio(1, 2), Fx::from_int(1), Fx::from_int(2)));
}

#[test]
fn quantization_clamps_and_scales() {
    let (r, g, b) = Renderer::vec3_to_color(Vec3::new(
        Fx::from_ratio(1, 2),
        Fx::from_ratio(3, 2),
        Fx::from_int(-1),
    ));
    assert_eq!(r, 128);
    assert_eq!(g, 255);
    assert_eq!(b, 0);
}

#[test]
fn render_fills_the_whole_buffer() {
    let resolution = Resolution::new(4, 3);
    let mut renderer = Renderer::new(RendererConfig {
        resolution,
        sample_count: 2,
        max_bounces: 2,
    });
    let camera = Camera::new(
        Vec3::from_ints(0, 0, 5),
        Vec3::from_ints(0, 0, 0),
        Fx::from_int(60),
        FocusMode::AutoFocus,
        Fx::zero(),
        depth_interval(),
        &resolution,
    );
    let sphere = Shape::Ball(Sphere::new(
        Vec3::from_ints(0, 0, 0),
        Fx::from_int(1),
        Material::Lambertian(LambertianDiffuse::new(Vec3::from_ints(1, 0, 0))),
    ));
    let scene = Scene::new(sky(), vec![sphere], Vec::new());
    let mut rng = Rng::new(42);

    renderer.render(&camera, &scene, &mut rng);
    assert_eq!(renderer.render_target.len(), 4 * 3 * 3);
}

#[test]
fn render_rows_compose_the_image() {
    let resolution = Resolution::new(5, 2);
    let config = RendererConfig { resolution, sample_count: 1, max_bounces: 1 };
    let renderer = Renderer::new(config);
    let camera = Camera::new(
        Vec3::from_ints(0, 0, 5),
        Vec3::from_ints(0, 0, 0),
        Fx::from_int(60),
        FocusMode::Manual(Fx::from_int(2)),
        Fx::zero(),
        depth_interval(),
        &resolution,
    );
    let scene = Scene::new(sky(), Vec::new(), Vec::new());
    let mut rng = Rng::new(9);

    let row = renderer.render_row(&camera, &scene, 0, &mut rng);
    assert_eq!(row.len(), 5 * 3);
}

#[test]
fn render_is_reproducible_under_a_seed() {
    let resolution = Resolution::new(3, 3);
    let config = RendererConfig { resolution, sample_count: 4, max_bounces: 3 };
    let camera = Camera::new(
        Vec3::from_ints(0, 0, 5),
        Vec3::from_ints(0, 0, 0),
        Fx::from_int(60),
        FocusMode::AutoFocus,
        Fx::zero(),
        depth_interval(),
        &resolution,
    );
    let sphere = Shape::Ball(Sphere::new(
        Vec3::from_ints(0, 0, 0),
        Fx::from_int(1),
        Material::Lambertian(LambertianDiffuse::new(Vec3::from_ints(1, 0, 0))),
    ));

    let render_with_seed = |seed: u64| -> Vec<u8> {
        let scene = Scene::new(sky(), vec![sphere], Vec::new());
        let mut renderer = Renderer::new(config);
        let mut rng = Rng::new(seed);
        renderer.render(&camera, &scene, &mut rng);
        renderer.render_target
    };

    // The whole pipeline is a function of the seed: equal seeds give
    // byte-identical images.
    assert_eq!(render_with_seed(77), render_with_seed(77));
}

/// A fully enclosed Lambertian box lit only by an emissive patch: the mean
/// radiance settles as the sample count grows, a Monte Carlo consistency
/// check rather than an exact equality.
#[test]
fn enclosed_scene_mean_settles_with_more_samples() {
    let gray = Material::Lambertian(LambertianDiffuse::new(Vec3::from_ints(1, 1, 1)));
    let walls = vec![
        Shape::Slab(Plane::new(Vec3::from_ints(0, -5, 0), Vec3::from_ints(0, 1, 0), gray)),
        Shape::Slab(Plane::new(Vec3::from_ints(0, 5, 0), Vec3::from_ints(0, -1, 0), gray)),
        Shape::Slab(Plane::new(Vec3::from_ints(-5, 0, 0), Vec3::from_ints(1, 0, 0), gray)),
        Shape::Slab(Plane::new(Vec3::from_ints(5, 0, 0), Vec3::from_ints(-1, 0, 0), gray)),
        Shape::Slab(Plane::new(Vec3::from_ints(0, 0, -5), Vec3::from_ints(0, 0, 1), gray)),
        Shape::Slab(Plane::new(Vec3::from_ints(0, 0, 5), Vec3::from_ints(0, 0, -1), gray)),
        Shape::Panel(Rectangle::new(
            Vec3::from_ints(0, 4, 0),
            Vec3::from_ints(0, -1, 0),
            Fx::from_int(1),
            Fx::from_int(1),
            Material::Emitter(Emissive::new(Vec3::from_ints(1, 1, 1), Fx::one())),
        )),
    ];
    let black_sky = SkyAttenuation {
        light_color: Vec3::from_ints(0, 0, 0),
        sky_color: Vec3::from_ints(0, 0, 0),
    };
    let resolution = Resolution::new(4, 4);
    let camera = Camera::new(
        Vec3::from_ints(0, 0, 0),
        Vec3::from_ints(0, 4, 1),
        Fx::from_int(90),
        FocusMode::AutoFocus,
        Fx::zero(),
        Interval::new(Fx::from_ratio(1, 100), Fx::from_int(1000)),
        &resolution,
    );

    let mean_for = |samples: u32| -> i64 {
        let scene = Scene::new(black_sky, walls.clone(), Vec::new());
        let mut renderer = Renderer::new(RendererConfig {
            resolution,
            sample_count: samples,
            max_bounces: 4,
        });
        let mut rng = Rng::new(1234);
        renderer.render(&camera, &scene, &mut rng);
        let sum: i64 = renderer.render_target.iter().map(|&b| b as i64).sum();
        sum / (renderer.render_target.len() as i64)
    };

    let coarse = mean_for(64);
    let fine = mean_for(256);
    assert!((coarse - fine).abs() <= 40, "means diverged: {} vs {}", coarse, fine);
}
