//! The fixed-point scalar: exact arithmetic, saturation and approximations.

use raytracer::fixed::{Fx, FX_ONE, FX_PI};
use raytracer::vec3::Vec3;

#[test]
fn integer_arithmetic_is_exact() {
    assert_eq!(Fx::from_int(3).add(Fx::from_int(4)), Fx::from_int(7));
    assert_eq!(Fx::from_int(3).sub(Fx::from_int(4)), Fx::from_int(-1));
    assert_eq!(Fx::from_int(3).mul(Fx::from_int(2)), Fx::from_int(6));
    assert_eq!(Fx::from_int(6).div(Fx::from_int(2)), Fx::from_int(3));
    assert_eq!(Fx::from_int(5).neg(), Fx::from_int(-5));
    assert_eq!(Fx::from_int(-5).abs(), Fx::from_int(5));
}

#[test]
fn ratios_truncate_toward_zero() {
    assert_eq!(Fx::from_ratio(1, 2).m, FX_ONE / 2);
    assert_eq!(Fx::from_ratio(-1, 2).m, -(FX_ONE / 2));
    assert_eq!(Fx::from_ratio(2, 3).m, 43690);
}

#[test]
fn saturation_pins_the_extremes() {
    let top = Fx::max_value();
    assert_eq!(top.add(Fx::one()), top);
    assert_eq!(Fx::min_value().sub(Fx::one()), Fx::min_value());
    assert_eq!(top.mul(top), top);
}

#[test]
fn division_by_zero_saturates_by_sign() {
    assert_eq!(Fx::one().div(Fx::zero()), Fx::max_value());
    assert_eq!(Fx::from_int(-1).div(Fx::zero()), Fx::min_value());
    assert_eq!(Fx::zero().div(Fx::zero()), Fx::zero());
}

#[test]
fn square_roots_of_perfect_squares_are_exact() {
    assert_eq!(Fx::from_int(9).sqrt(), Fx::from_int(3));
    assert_eq!(Fx::from_ratio(1, 4).sqrt(), Fx::from_ratio(1, 2));
    assert_eq!(Fx::from_int(-4).sqrt(), Fx::zero());
}

#[test]
fn pi_mantissa_matches_the_scale() {
    // pi * 65536 truncates to 205887.
    assert_eq!(FX_PI, 205887);
    // 180 degrees is pi radians, up to the representation's rounding.
    let half_turn = Fx::from_int(180).to_radians();
    assert!((half_turn.m - FX_PI).abs() <= 1);
}

#[test]
fn tangent_approximation_is_close_at_45_degrees() {
    let t = Fx::from_int(45).to_radians().tan_approx();
    // tan(45 degrees) is 1; the series and fixed-point rounding stay within
    // a small neighborhood.
    assert!((t.m - FX_ONE).abs() < 900, "tan mantissa {}", t.m);
}

#[test]
fn vector_algebra_is_exact_on_integers() {
    let a = Vec3::from_ints(1, 2, 3);
    let b = Vec3::from_ints(4, -5, 6);
    assert_eq!(a.add(b), Vec3::from_ints(5, -3, 9));
    assert_eq!(a.sub(b), Vec3::from_ints(-3, 7, -3));
    assert_eq!(a.dot(b), Fx::from_int(4 - 10 + 18));
    assert_eq!(a.cross(b), Vec3::from_ints(27, 6, -13));
    assert_eq!(a.component_mul(b), Vec3::from_ints(4, -10, 18));
    assert_eq!(a.scale(Fx::from_int(2)), Vec3::from_ints(2, 4, 6));
    assert_eq!(Vec3::from_ints(0, 3, 4).magnitude(), Fx::from_int(5));
    assert_eq!(Vec3::from_ints(0, 0, 9).normalize(), Vec3::from_ints(0, 0, 1));
}

#[test]
fn normalizing_the_zero_vector_stays_zero() {
    assert_eq!(Vec3::from_ints(0, 0, 0).normalize(), Vec3::from_ints(0, 0, 0));
}
