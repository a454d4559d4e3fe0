//! Material construction, reflection formulas and scattering guarantees.

use raytracer::fixed::{Fx, FX_ONE};
use raytracer::vec3::Vec3;
use raytracer::ray::Ray;
use raytracer::ray_hit::{RayHit, HitType};
use raytracer::rng::Rng;
use raytracer::material::{Material, MaterialTransparency, reflect, refract, reflectance};
use raytracer::material::diffuse::LambertianDiffuse;
use raytracer::material::metal::Metal;
use raytracer::material::dielectric::Dielectric;
use raytracer::material::emissive::Emissive;

fn test_hit(material: Material) -> RayHit {
    RayHit {
        depth: Fx::from_int(1),
        position: Vec3::from_ints(0, 1, 0),
        hit_type: HitType::FrontFace,
        normal: Vec3::from_ints(0, 1, 0),
        material,
    }
}

#[test]
fn metal_fuzz_is_clamped_to_one() {
    let metal = Metal::new(Vec3::from_ints(1, 1, 1), Fx::from_ratio(5, 1));
    assert_eq!(metal.fuzz_factor, Fx::one());
}

#[test]
fn metal_fuzz_is_clamped_to_zero() {
    let metal = Metal::new(Vec3::from_ints(1, 1, 1), Fx::from_int(-3));
    assert_eq!(metal.fuzz_factor, Fx::zero());
}

#[test]
fn metal_fuzz_in_range_is_kept() {
    let half = Fx::from_ratio(1, 2);
    let metal = Metal::new(Vec3::from_ints(1, 1, 1), half);
    assert_eq!(metal.fuzz_factor, half);
}

#[test]
fn reflect_is_exact_for_diagonal_incidence() {
    // (1, -1, 0) reflected about the vertical normal is (1, 1, 0).
    let reflected = reflect(&Vec3::from_ints(1, -1, 0), &Vec3::from_ints(0, 1, 0));
    assert_eq!(reflected, Vec3::from_ints(1, 1, 0));
}

#[test]
fn refract_straight_through_at_matched_index() {
    // Head-on incidence with an index ratio of 1 passes straight through.
    let refracted = refract(&Vec3::from_ints(0, -1, 0), &Vec3::from_ints(0, 1, 0), Fx::one());
    assert_eq!(refracted, Vec3::from_ints(0, -1, 0));
}

#[test]
fn reflectance_vanishes_head_on_at_matched_index() {
    // cos = 1 and an index ratio of 1 give r0 = 0 and (1 - cos)^5 = 0.
    let r = reflectance(Fx::one(), Fx::one());
    assert_eq!(r, Fx::zero());
}

#[test]
fn reflectance_is_total_at_grazing_incidence() {
    // cos = 0 gives r0 + (1 - r0): exactly 1 whatever the index.
    let r = reflectance(Fx::zero(), Fx::from_ratio(3, 2));
    assert_eq!(r, Fx::one());
}

#[test]
fn lambertian_always_scatters_with_albedo() {
    let albedo = Vec3::from_ints(1, 0, 0);
    let material = Material::Lambertian(LambertianDiffuse::new(albedo));
    let hit = test_hit(material);
    let ray = Ray::new(Vec3::from_ints(0, 2, 0), Vec3::from_ints(0, -1, 0));
    let mut rng = Rng::new(7);

    let scatter = material.scatter(&ray, &hit, &mut rng).unwrap();
    assert_eq!(scatter.attenuation, albedo);
    assert_eq!(scatter.ray.origin, hit.position);
}

#[test]
fn metal_scatter_carries_fuzzed_reflection() {
    let albedo = Vec3::from_ints(1, 1, 0);
    let material = Material::Metallic(Metal::new(albedo, Fx::zero()));
    let hit = test_hit(material);
    let ray = Ray::new(Vec3::from_ints(1, 2, 0), Vec3::from_ints(1, -1, 0));
    let mut rng = Rng::new(7);

    let scatter = material.scatter(&ray, &hit, &mut rng).unwrap();
    assert_eq!(scatter.attenuation, albedo);
    assert_eq!(scatter.ray.origin, hit.position);
    // With zero fuzz the scattered direction is the exact mirror image.
    assert_eq!(scatter.ray.direction, Vec3::from_ints(1, 1, 0));
}

#[test]
fn dielectric_always_scatters_with_tint() {
    let tint = Vec3::from_ints(1, 1, 1);
    let material = Material::Glass(Dielectric::new(tint, Fx::from_ratio(3, 2)));
    let hit = test_hit(material);
    let ray = Ray::new(Vec3::from_ints(0, 2, 0), Vec3::from_ints(0, -1, 0));
    let mut rng = Rng::new(7);

    let scatter = material.scatter(&ray, &hit, &mut rng).unwrap();
    assert_eq!(scatter.attenuation, tint);
    assert_eq!(scatter.ray.origin, hit.position);
}

#[test]
fn emissive_never_scatters_and_emits_scaled_color() {
    let material = Material::Emitter(Emissive::new(Vec3::from_ints(1, 0, 1), Fx::from_int(15)));
    let hit = test_hit(material);
    let ray = Ray::new(Vec3::from_ints(0, 2, 0), Vec3::from_ints(0, -1, 0));
    let mut rng = Rng::new(7);

    assert!(material.scatter(&ray, &hit, &mut rng).is_none());
    assert_eq!(material.emit(), Vec3::from_ints(15, 0, 15));
}

#[test]
fn non_emissive_materials_emit_black() {
    let material = Material::Lambertian(LambertianDiffuse::new(Vec3::from_ints(1, 1, 1)));
    assert_eq!(material.emit(), Vec3::from_ints(0, 0, 0));
}

#[test]
fn only_glass_is_transparent() {
    let glass = Material::Glass(Dielectric::new(Vec3::from_ints(1, 1, 1), Fx::from_ratio(3, 2)));
    let diffuse = Material::Lambertian(LambertianDiffuse::new(Vec3::from_ints(1, 1, 1)));
    let metal = Material::Metallic(Metal::new(Vec3::from_ints(1, 1, 1), Fx::zero()));
    let emitter = Material::Emitter(Emissive::new(Vec3::from_ints(1, 1, 1), Fx::one()));

    assert!(matches!(glass.material_transparency(), MaterialTransparency::Transparent));
    assert!(matches!(diffuse.material_transparency(), MaterialTransparency::Opaque));
    assert!(matches!(metal.material_transparency(), MaterialTransparency::Opaque));
    assert!(matches!(emitter.material_transparency(), MaterialTransparency::Opaque));
}

#[test]
fn unit_mantissa_constant_is_the_scale() {
    assert_eq!(FX_ONE, 65536);
    assert_eq!(Fx::one().m, FX_ONE);
}
