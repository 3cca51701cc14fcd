//! Materials: how a surface scatters a ray and what light it gives off.
pub mod material;
pub mod lambertian;
pub mod metal;
pub mod dielectric;
pub mod isotropic;
pub mod emissive;
pub mod pdf;
