//! Textures: colour as a function of surface coordinates and position.
pub mod texture;
pub mod checker;
pub mod image;
pub mod noise;
