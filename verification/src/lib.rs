//! An offline Monte Carlo path tracer over exact fixed-point arithmetic.
//!
//! The renderer computes a color for every pixel of a raster image by
//! stochastically sampling light-carrying paths through a scene of geometric
//! primitives with attached materials. All numeric work is done on [`fixed::Fx`],
//! a saturating Q47.16 fixed-point scalar, so every stage of the pipeline —
//! ray generation, intersection, scattering, shadow sampling and the
//! integrator — carries an exact, machine-checked contract.

pub mod camera;
pub mod fixed;
pub mod interval;
pub mod light;
pub mod material;
pub mod primitive;
pub mod ray;
pub mod ray_hit;
pub mod resolution;
pub mod renderer;
pub mod rng;
pub mod scene;
pub mod timer;
pub mod vec3;
