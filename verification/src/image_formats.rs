//! Image file formats.
pub mod ppm;
