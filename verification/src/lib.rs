//! The discrete kernel of an offline path tracer.
//!
//! A caller computes the geometry in double-precision arithmetic and hands
//! the numbers over as bit patterns. The library decides with them: which
//! root of a sphere is hit, which sphere is nearest, what a material does
//! with a ray, when a path ends, and where each pixel's bytes go.
pub mod camera;
pub mod hittable;
pub mod material;
pub mod ray;
pub mod renderer;
pub mod scalar;
pub mod state;
pub mod utils;
pub mod vec3;
