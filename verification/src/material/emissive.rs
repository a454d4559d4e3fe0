//! A purely emissive surface: it never scatters and ends every path that
//! reaches it.

use vstd::prelude::*;
use crate::fixed::Fx;
use crate::vec3::{Vec3, vscale};
use crate::ray::Ray;
use crate::ray_hit::RayHit;
use crate::material::Scatter;

verus! {

/// A light-emitting surface with a color and an intensity.
#[derive(Clone, Copy, Debug)]
pub struct Emissive {
    pub color: Vec3,
    pub strength: Fx,
}

impl Emissive {
    pub fn new(color: Vec3, strength: Fx) -> (r: Emissive)
        ensures
            r.color == color,
            r.strength == strength,
    {
        Emissive { color, strength }
    }

    /// An emissive surface never scatters.
    pub fn scatter(&self, _ray: &Ray, _hit: &RayHit) -> (r: Option<Scatter>)
        ensures
            r is None,
    {
        None
    }

    /// Emitted radiance: `color * strength`.
    pub fn emit(&self) -> (r: Vec3)
        ensures
            r == vscale(self.strength, self.color),
    {
        self.color.scale(self.strength)
    }
}

} // verus!
