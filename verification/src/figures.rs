//! Geometry: bounding boxes, primitives, aggregates and the camera.
pub mod aabb;
pub mod hittable;
pub mod sphere;
pub mod quad;
pub mod hittable_list;
pub mod translate;
pub mod rotate;
pub mod constant_medium;
pub mod cube;
pub mod bvh;
pub mod camera;
pub mod nearest;
