//! A path tracer over fixed-point reals, verified with Verus.
//!
//! Every quantity of the renderer (coordinates, directions, colours, ray
//! parameters) is a [`utility::scalar::Scalar`]: a signed count of
//! millionths that saturates instead of overflowing. All arithmetic is
//! therefore total, no function of the library panics, and each function is
//! specified by a spec function over the same values.
//!
//! Random numbers come from a [`utility::utils::Sampler`], which carries the
//! whole state of its generator as one seed. Whatever draws from it says
//! what it returns for the seed it starts from and which seed it leaves
//! behind, so an image is a function of the scene, the camera and one seed.
//!
//! The modules, leaves first:
//!
//! - [`utility`]: scalars and their elementary functions, vectors, colours,
//!   intervals, rays, random draws, gradient noise;
//! - [`textures`]: colour as a function of surface coordinates and position;
//! - [`materials`]: how a surface scatters a ray and what light it gives off;
//! - [`figures`]: bounding boxes, primitives, wrappers and aggregates, the
//!   camera, and what a list and a tree over the same objects have in common;
//! - [`image_formats`]: the image as plain text;
//! - [`scenes`]: ready-made worlds with their cameras.
pub mod utility;
pub mod figures;
pub mod textures;
pub mod materials;
pub mod image_formats;
pub mod scenes;
