//! Light sources sampled by shadow rays.

pub mod radial_light;
