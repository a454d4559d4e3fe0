//! The geometric primitives and their capability interface.
//!
//! A primitive can report a surface normal at a point, the inverted normal,
//! and its material; a hittable can intersect a ray within an interval.
//! Scenes store the closed set of concrete shapes as [`Shape`] variants.

pub mod sphere;
pub mod plane;

use vstd::prelude::*;
use crate::vec3::Vec3;
use crate::interval::Interval;
use crate::ray::Ray;
use crate::ray_hit::RayHit;
use crate::material::Material;
use self::sphere::{Sphere, sphere_hit_spec};
use self::plane::{Plane, Rectangle, plane_hit_spec, rectangle_hit_spec};

verus! {

/// Surface queries every primitive answers.
pub trait Primitive: Sized {
    /// The outward surface normal at `location`.
    spec fn normal_spec(&self, location: Vec3) -> Vec3;

    /// The inverted surface normal at `location`.
    spec fn inverted_normal_spec(&self, location: Vec3) -> Vec3;

    /// The material the primitive owns.
    spec fn material_spec(&self) -> Material;

    fn normal(&self, location: &Vec3) -> (r: Vec3)
        ensures
            r == self.normal_spec(*location),
    ;

    fn inverted_normal(&self, location: &Vec3) -> (r: Vec3)
        ensures
            r == self.inverted_normal_spec(*location),
    ;

    fn material(&self) -> (r: &Material)
        ensures
            *r == self.material_spec(),
    ;
}

/// Intersection with a ray, restricted to an interval of distances. A hit
/// always lies strictly inside the queried interval.
pub trait Hittable {
    fn hit(&self, ray: &Ray, interval: &Interval) -> (r: Option<RayHit>)
        ensures
            r matches Some(h) ==> interval.surrounds_spec(h.depth),
    ;
}

/// A primitive that can also be intersected.
pub trait HittablePrimitive: Hittable + Primitive {

}

/// The closed set of shapes a scene can hold.
#[derive(Clone, Copy, Debug)]
pub enum Shape {
    Ball(Sphere),
    Slab(Plane),
    Panel(Rectangle),
}

/// The hit the shape reports for `ray` within `interval`.
pub open spec fn shape_hit_spec(s: Shape, ray: Ray, interval: Interval) -> Option<RayHit> {
    match s {
        Shape::Ball(p) => sphere_hit_spec(p, ray, interval),
        Shape::Slab(p) => plane_hit_spec(p, ray, interval),
        Shape::Panel(p) => rectangle_hit_spec(p, ray, interval),
    }
}

impl Shape {
    pub fn hit(&self, ray: &Ray, interval: &Interval) -> (r: Option<RayHit>)
        ensures
            r == shape_hit_spec(*self, *ray, *interval),
            r matches Some(h) ==> interval.surrounds_spec(h.depth),
    {
        match self {
            Shape::Ball(p) => p.hit(ray, interval),
            Shape::Slab(p) => p.hit(ray, interval),
            Shape::Panel(p) => p.hit(ray, interval),
        }
    }
}

/// Narrowing the upper end of the interval keeps exactly the hits that fall
/// below the new bound: the scene's shrinking-interval scan is sound.
pub proof fn lemma_shape_hit_narrow(s: Shape, ray: Ray, interval: Interval, closer: crate::fixed::Fx)
    requires
        closer.m <= interval.1.m,
    ensures
        shape_hit_spec(s, ray, Interval(interval.0, closer)) == (match shape_hit_spec(
            s,
            ray,
            interval,
        ) {
            Some(h) => if h.depth.m < closer.m {
                Some(h)
            } else {
                None::<RayHit>
            },
            None => None::<RayHit>,
        }),
{
    match s {
        Shape::Ball(p) => sphere::lemma_sphere_hit_narrow(p, ray, interval, closer),
        Shape::Slab(p) => plane::lemma_plane_hit_narrow(p, ray, interval, closer),
        Shape::Panel(p) => plane::lemma_rectangle_hit_narrow(p, ray, interval, closer),
    }
}

} // verus!
