//! The record a successful intersection produces.

use vstd::prelude::*;
use crate::fixed::Fx;
use crate::vec3::{Vec3, vdot_m};
use crate::ray::Ray;
use crate::material::Material;
use crate::primitive::Primitive;

verus! {

/// Whether the ray struck the surface from outside or from inside.
#[derive(Clone, Copy, Debug, PartialEq, Eq, Structural)]
pub enum HitType {
    FrontFace,
    BackFace,
}

/// A hit: the distance along the ray, the world position, a normal oriented
/// to oppose the incoming ray, a front/back tag, and a copy of the hit
/// primitive's material handle.
#[derive(Clone, Copy, Debug)]
pub struct RayHit {
    pub depth: Fx,
    pub position: Vec3,
    pub hit_type: HitType,
    pub normal: Vec3,
    pub material: Material,
}

/// The hit record for `position` on `primitive`: the outward normal when
/// the ray comes from outside, the inverted normal and a back-face tag when
/// the dot product shows the ray originated inside.
pub open spec fn ray_hit_spec<P: Primitive>(depth: Fx, position: Vec3, ray: Ray, primitive: P) -> RayHit {
    let outward = primitive.normal_spec(position);
    if vdot_m(outward, ray.direction) > 0 {
        RayHit {
            depth,
            position,
            hit_type: HitType::BackFace,
            normal: primitive.inverted_normal_spec(position),
            material: primitive.material_spec(),
        }
    } else {
        RayHit {
            depth,
            position,
            hit_type: HitType::FrontFace,
            normal: outward,
            material: primitive.material_spec(),
        }
    }
}

impl RayHit {
    pub fn new<P: Primitive>(depth: Fx, position: Vec3, ray: &Ray, primitive: &P) -> (r: RayHit)
        ensures
            r == ray_hit_spec(depth, position, *ray, *primitive),
    {
        let mut normal = primitive.normal(&position);
        let mut hit_type = HitType::FrontFace;

        // A positive dot product with the ray direction means the outward
        // normal faces along the ray: the ray comes from inside the object.
        if normal.dot(*ray.direction()).m > 0 {
            normal = primitive.inverted_normal(&position);
            hit_type = HitType::BackFace;
        }

        RayHit { depth, position, hit_type, normal, material: *primitive.material() }
    }
}

} // verus!
