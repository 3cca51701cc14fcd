//! Numeric foundations: scalars, vectors, intervals, rays and random draws.
pub mod scalar;
pub mod math;
pub mod utils;
pub mod vec3;
pub mod color;
pub mod interval;
pub mod ray;
pub mod perlin;
pub mod orthonormal;
