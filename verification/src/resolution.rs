//! The output raster's dimensions.

use vstd::prelude::*;
use crate::fixed::{Fx, fx_div_m};

verus! {

/// A (width, height) pair of pixel counts.
#[derive(Debug, Clone, Copy, PartialEq, Eq, Structural)]
pub struct Resolution(pub u32, pub u32);

impl Resolution {
    pub fn new(width: u32, height: u32) -> (r: Resolution)
        ensures
            r.0 == width,
            r.1 == height,
    {
        Resolution(width, height)
    }

    pub fn width(&self) -> (r: u32)
        ensures
            r == self.0,
    {
        self.0
    }

    pub fn height(&self) -> (r: u32)
        ensures
            r == self.1,
    {
        self.1
    }

    pub fn dimensions(&self) -> (r: (u32, u32))
        ensures
            r.0 == self.0,
            r.1 == self.1,
    {
        (self.0, self.1)
    }

    /// Width over height as a scalar (a zero height saturates).
    pub fn aspect_ratio(&self) -> (r: Fx)
        ensures
            r.m == fx_div_m(self.0 as int, self.1 as int),
    {
        Fx::from_ratio(self.0 as i64, self.1 as i64)
    }
}

} // verus!
