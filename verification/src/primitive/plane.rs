//! Infinite planes and bounded rectangles.

use vstd::prelude::*;
use crate::fixed::{Fx, fx_neg_m, fx_div_m, fx_mul_m};
use crate::vec3::{Vec3, fx, vsub, vneg, vscale, vdot_m};
use crate::interval::Interval;
use crate::ray::Ray;
use crate::ray_hit::{RayHit, ray_hit_spec};
use crate::material::Material;
use crate::primitive::{Primitive, Hittable, HittablePrimitive};

verus! {

/// An infinite plane through a point with a fixed normal.
#[derive(Clone, Copy, Debug)]
pub struct Plane {
    pub position: Vec3,
    pub normal: Vec3,
    pub material: Material,
}

/// The incident angle term of a plane intersection: the dot product of the
/// ray direction with the plane normal. A zero mantissa (magnitude below
/// the representation's resolution) counts as parallel and reports no hit.
pub open spec fn plane_incidence_m(normal: Vec3, ray: Ray) -> int {
    vdot_m(ray.direction, normal)
}

/// The distance at which the ray meets the plane: `-dot(oc, n) / incidence`.
pub open spec fn plane_depth(position: Vec3, normal: Vec3, ray: Ray) -> Fx {
    let oc = vsub(ray.origin, position);
    fx(fx_div_m(fx_neg_m(vdot_m(oc, normal)), plane_incidence_m(normal, ray)))
}

/// The hit a plane reports: reject parallel rays, solve the single linear
/// equation, and validate the depth against the interval.
pub open spec fn plane_hit_spec(p: Plane, ray: Ray, interval: Interval) -> Option<RayHit> {
    if plane_incidence_m(p.normal, ray) == 0 {
        None
    } else {
        let depth = plane_depth(p.position, p.normal, ray);
        if interval.surrounds_spec(depth) {
            Some(ray_hit_spec(depth, ray.at_spec(depth), ray, p))
        } else {
            None
        }
    }
}

impl Plane {
    pub fn new(position: Vec3, normal: Vec3, material: Material) -> (r: Plane)
        ensures
            r.position == position,
            r.normal == normal,
            r.material == material,
    {
        Plane { position, normal, material }
    }

    pub fn hit(&self, ray: &Ray, interval: &Interval) -> (r: Option<RayHit>)
        ensures
            r == plane_hit_spec(*self, *ray, *interval),
            r matches Some(h) ==> interval.surrounds_spec(h.depth),
    {
        let incident_angle = ray.direction().dot(self.normal);
        if incident_angle.m == 0 {
            return None;
        }

        let oc = ray.origin().sub(self.position);
        let depth = oc.dot(self.normal).neg().div(incident_angle);
        if !interval.surrounds(depth) {
            return None;
        }

        let position = ray.at(depth);
        Some(RayHit::new(depth, position, ray, self))
    }
}

impl Primitive for Plane {
    /// The normal is the same everywhere on the plane.
    open spec fn normal_spec(&self, location: Vec3) -> Vec3 {
        self.normal
    }

    open spec fn inverted_normal_spec(&self, location: Vec3) -> Vec3 {
        vneg(self.normal)
    }

    open spec fn material_spec(&self) -> Material {
        self.material
    }

    fn normal(&self, _location: &Vec3) -> Vec3 {
        self.normal
    }

    fn inverted_normal(&self, location: &Vec3) -> Vec3 {
        self.normal(location).neg()
    }

    fn material(&self) -> &Material {
        &self.material
    }
}

impl Hittable for Plane {
    fn hit(&self, ray: &Ray, interval: &Interval) -> Option<RayHit> {
        self.hit(ray, interval)
    }
}

impl HittablePrimitive for Plane {

}

/// A rectangle: a plane hit whose projection onto two scaled basis vectors
/// must stay within unit extent. The unit bound on the projections is a
/// deliberate simplification carried over from the plane's design: it is
/// not a true half-width test in world units.
#[derive(Clone, Copy, Debug)]
pub struct Rectangle {
    pub position: Vec3,
    pub normal: Vec3,
    pub basis_vectors: (Vec3, Vec3),
    pub material: Material,
}

/// The planar offset of a hit position from the rectangle's anchor point.
pub open spec fn rectangle_planar_hit(rect: Rectangle, hit_position: Vec3) -> Vec3 {
    vsub(rect.position, hit_position)
}

/// The hit position projects outside the rectangle's extent.
pub open spec fn rectangle_out_of_bounds(rect: Rectangle, hit_position: Vec3) -> bool {
    let planar = rectangle_planar_hit(rect, hit_position);
    let u = vdot_m(planar, rect.basis_vectors.0);
    let v = vdot_m(planar, rect.basis_vectors.1);
    let abs_u = if u < 0 {
        fx_neg_m(u)
    } else {
        u
    };
    let abs_v = if v < 0 {
        fx_neg_m(v)
    } else {
        v
    };
    abs_u > crate::fixed::FX_ONE || abs_v > crate::fixed::FX_ONE
}

/// The hit a rectangle reports: a plane hit, discarded when its projection
/// leaves the rectangle's extent.
pub open spec fn rectangle_hit_spec(rect: Rectangle, ray: Ray, interval: Interval) -> Option<
    RayHit,
> {
    if plane_incidence_m(rect.normal, ray) == 0 {
        None
    } else {
        let depth = plane_depth(rect.position, rect.normal, ray);
        if !interval.surrounds_spec(depth) {
            None
        } else {
            let hit_position = ray.at_spec(depth);
            if rectangle_out_of_bounds(rect, hit_position) {
                None
            } else {
                Some(ray_hit_spec(depth, hit_position, ray, rect))
            }
        }
    }
}

impl Rectangle {
    /// The basis vectors are the world x and z axes scaled by the given
    /// extents.
    pub fn new(position: Vec3, normal: Vec3, width: Fx, height: Fx, material: Material) -> (r:
        Rectangle)
        ensures
            r.position == position,
            r.normal == normal,
            r.basis_vectors.0 == vscale(width, Vec3 { x: fx(crate::fixed::FX_ONE as int), y: fx(0), z: fx(0) }),
            r.basis_vectors.1 == vscale(height, Vec3 { x: fx(0), y: fx(0), z: fx(crate::fixed::FX_ONE as int) }),
            r.material == material,
    {
        let unit_x = Vec3::new(Fx::one(), Fx::zero(), Fx::zero());
        let unit_z = Vec3::new(Fx::zero(), Fx::zero(), Fx::one());
        Rectangle {
            position,
            normal,
            basis_vectors: (unit_x.scale(width), unit_z.scale(height)),
            material,
        }
    }

    pub fn hit(&self, ray: &Ray, interval: &Interval) -> (r: Option<RayHit>)
        ensures
            r == rectangle_hit_spec(*self, *ray, *interval),
            r matches Some(h) ==> interval.surrounds_spec(h.depth),
    {
        let incident_angle = ray.direction().dot(self.normal);
        if incident_angle.m == 0 {
            return None;
        }

        let oc = ray.origin().sub(self.position);
        let depth = oc.dot(self.normal).neg().div(incident_angle);
        if !interval.surrounds(depth) {
            return None;
        }

        let hit_position = ray.at(depth);
        let planar_hit = self.position.sub(hit_position);

        let u = planar_hit.dot(self.basis_vectors.0);
        let v = planar_hit.dot(self.basis_vectors.1);
        if u.abs().m > Fx::one().m || v.abs().m > Fx::one().m {
            return None;
        }

        Some(RayHit::new(depth, hit_position, ray, self))
    }
}

impl Primitive for Rectangle {
    /// The normal is the same everywhere on the rectangle.
    open spec fn normal_spec(&self, location: Vec3) -> Vec3 {
        self.normal
    }

    open spec fn inverted_normal_spec(&self, location: Vec3) -> Vec3 {
        vneg(self.normal)
    }

    open spec fn material_spec(&self) -> Material {
        self.material
    }

    fn normal(&self, _location: &Vec3) -> Vec3 {
        self.normal
    }

    fn inverted_normal(&self, location: &Vec3) -> Vec3 {
        self.normal(location).neg()
    }

    fn material(&self) -> &Material {
        &self.material
    }
}

impl Hittable for Rectangle {
    fn hit(&self, ray: &Ray, interval: &Interval) -> Option<RayHit> {
        self.hit(ray, interval)
    }
}

impl HittablePrimitive for Rectangle {

}

/// Narrowing the upper bound of the interval keeps exactly the plane hits
/// that fall below the new bound.
pub proof fn lemma_plane_hit_narrow(p: Plane, ray: Ray, interval: Interval, closer: Fx)
    requires
        closer.m <= interval.1.m,
    ensures
        plane_hit_spec(p, ray, Interval(interval.0, closer)) == (match plane_hit_spec(
            p,
            ray,
            interval,
        ) {
            Some(h) => if h.depth.m < closer.m {
                Some(h)
            } else {
                None::<RayHit>
            },
            None => None::<RayHit>,
        }),
{
}

/// Narrowing the upper bound of the interval keeps exactly the rectangle
/// hits that fall below the new bound.
pub proof fn lemma_rectangle_hit_narrow(rect: Rectangle, ray: Ray, interval: Interval, closer: Fx)
    requires
        closer.m <= interval.1.m,
    ensures
        rectangle_hit_spec(rect, ray, Interval(interval.0, closer)) == (match rectangle_hit_spec(
            rect,
            ray,
            interval,
        ) {
            Some(h) => if h.depth.m < closer.m {
                Some(h)
            } else {
                None::<RayHit>
            },
            None => None::<RayHit>,
        }),
{
}

} // verus!
