//! An object turned about the coordinate axes.
use vstd::prelude::*;
use std::sync::Arc;
use crate::figures::aabb::AABB;
use crate::figures::hittable::{HitRecord, Hittable};
use crate::utility::interval::Interval;
use crate::utility::ray::Ray;
use crate::utility::scalar::Scalar;
use crate::utility::utils::{Sampler, degrees_to_radians, spec_degrees_to_radians};
use crate::utility::vec3::{Point3, Vec3};

verus! {

/// A 3 x 3 matrix, by rows.
#[derive(Clone, Copy, Debug, PartialEq, Eq, Structural)]
pub struct Matrix3 {
    pub r0: Vec3,
    pub r1: Vec3,
    pub r2: Vec3,
}

/// The product of the matrix and the vector.
pub open spec fn spec_rotate_vec3(m: Matrix3, v: Vec3) -> Vec3 {
    Vec3 { x: m.r0.spec_dot(v), y: m.r1.spec_dot(v), z: m.r2.spec_dot(v) }
}

/// The matrix with rows and columns exchanged.
pub open spec fn spec_transpose(m: Matrix3) -> Matrix3 {
    Matrix3 {
        r0: Vec3 { x: m.r0.x, y: m.r1.x, z: m.r2.x },
        r1: Vec3 { x: m.r0.y, y: m.r1.y, z: m.r2.y },
        r2: Vec3 { x: m.r0.z, y: m.r1.z, z: m.r2.z },
    }
}

/// The matrix that turns by `-angles.z` degrees about the x axis, then by
/// `-angles.y` about the y axis, then by `-angles.x` about the z axis: it
/// takes world coordinates to those of an object turned by `angles`.
pub open spec fn spec_rotation(angles: Vec3) -> Matrix3 {
    let alpha = spec_degrees_to_radians(angles.x.spec_neg());
    let beta = spec_degrees_to_radians(angles.y.spec_neg());
    let gamma = spec_degrees_to_radians(angles.z.spec_neg());
    let cosa = alpha.spec_cos();
    let cosb = beta.spec_cos();
    let cosg = gamma.spec_cos();
    let sina = alpha.spec_sin();
    let sinb = beta.spec_sin();
    let sing = gamma.spec_sin();
    Matrix3 {
        r0: Vec3 {
            x: cosa.spec_mul(cosb),
            y: cosa.spec_mul(sinb).spec_mul(sing).spec_sub(sina.spec_mul(cosg)),
            z: cosa.spec_mul(sinb).spec_mul(cosg).spec_add(sina.spec_mul(sing)),
        },
        r1: Vec3 {
            x: sina.spec_mul(cosb),
            y: sina.spec_mul(sinb).spec_mul(sing).spec_add(cosa.spec_mul(cosg)),
            z: sina.spec_mul(sinb).spec_mul(cosg).spec_sub(cosa.spec_mul(sing)),
        },
        r2: Vec3 { x: sinb.spec_neg(), y: cosb.spec_mul(sing), z: cosb.spec_mul(cosg) },
    }
}

/// The least and the greatest coordinates seen so far, extended by `p`.
pub open spec fn spec_grow(acc: (Vec3, Vec3), p: Vec3) -> (Vec3, Vec3) {
    (
        Vec3 { x: acc.0.x.spec_min(p.x), y: acc.0.y.spec_min(p.y), z: acc.0.z.spec_min(p.z) },
        Vec3 { x: acc.1.x.spec_max(p.x), y: acc.1.y.spec_max(p.y), z: acc.1.z.spec_max(p.z) },
    )
}

/// The least and greatest coordinates among the eight corners of `bbox`,
/// each turned by `m`.
pub open spec fn spec_extremes(m: Matrix3, bbox: AABB) -> (Vec3, Vec3) {
    let inf = Scalar::spec_infinity();
    let ninf = Scalar::spec_neg_infinity();
    let start = (Vec3 { x: inf, y: inf, z: inf }, Vec3 { x: ninf, y: ninf, z: ninf });
    let c0 = spec_rotate_vec3(m, Vec3 { x: bbox.x.min, y: bbox.y.min, z: bbox.z.min });
    let c1 = spec_rotate_vec3(m, Vec3 { x: bbox.x.min, y: bbox.y.min, z: bbox.z.max });
    let c2 = spec_rotate_vec3(m, Vec3 { x: bbox.x.min, y: bbox.y.max, z: bbox.z.min });
    let c3 = spec_rotate_vec3(m, Vec3 { x: bbox.x.min, y: bbox.y.max, z: bbox.z.max });
    let c4 = spec_rotate_vec3(m, Vec3 { x: bbox.x.max, y: bbox.y.min, z: bbox.z.min });
    let c5 = spec_rotate_vec3(m, Vec3 { x: bbox.x.max, y: bbox.y.min, z: bbox.z.max });
    let c6 = spec_rotate_vec3(m, Vec3 { x: bbox.x.max, y: bbox.y.max, z: bbox.z.min });
    let c7 = spec_rotate_vec3(m, Vec3 { x: bbox.x.max, y: bbox.y.max, z: bbox.z.max });
    spec_grow(
        spec_grow(
            spec_grow(
                spec_grow(spec_grow(spec_grow(spec_grow(spec_grow(start, c0), c1), c2), c3), c4),
                c5,
            ),
            c6,
        ),
        c7,
    )
}

/// The box around the eight corners of `bbox`, each turned by `m`.
pub open spec fn spec_rotated_box(m: Matrix3, bbox: AABB) -> AABB {
    let (min, max) = spec_extremes(m, bbox);
    AABB::spec_from_points(min, max)
}

pub fn rotate_vec3(m: &Matrix3, v: Vec3) -> (r: Vec3)
    ensures
        r == spec_rotate_vec3(*m, v),
{
    Vec3 { x: m.r0.dot(&v), y: m.r1.dot(&v), z: m.r2.dot(&v) }
}

pub fn transpose(m: &Matrix3) -> (r: Matrix3)
    ensures
        r == spec_transpose(*m),
{
    Matrix3 {
        r0: Vec3 { x: m.r0.x, y: m.r1.x, z: m.r2.x },
        r1: Vec3 { x: m.r0.y, y: m.r1.y, z: m.r2.y },
        r2: Vec3 { x: m.r0.z, y: m.r1.z, z: m.r2.z },
    }
}

pub fn rotation(angles: Vec3) -> (r: Matrix3)
    ensures
        r == spec_rotation(angles),
{
    let alpha: Scalar = degrees_to_radians(angles.x.neg());
    let beta: Scalar = degrees_to_radians(angles.y.neg());
    let gamma: Scalar = degrees_to_radians(angles.z.neg());
    let cosa: Scalar = alpha.cos();
    let cosb: Scalar = beta.cos();
    let cosg: Scalar = gamma.cos();
    let sina: Scalar = alpha.sin();
    let sinb: Scalar = beta.sin();
    let sing: Scalar = gamma.sin();
    Matrix3 {
        r0: Vec3 {
            x: cosa.mul(cosb),
            y: cosa.mul(sinb).mul(sing).sub(sina.mul(cosg)),
            z: cosa.mul(sinb).mul(cosg).add(sina.mul(sing)),
        },
        r1: Vec3 {
            x: sina.mul(cosb),
            y: sina.mul(sinb).mul(sing).add(cosa.mul(cosg)),
            z: sina.mul(sinb).mul(cosg).sub(cosa.mul(sing)),
        },
        r2: Vec3 { x: sinb.neg(), y: cosb.mul(sing), z: cosb.mul(cosg) },
    }
}

fn grow(acc: (Vec3, Vec3), p: Vec3) -> (r: (Vec3, Vec3))
    ensures
        r == spec_grow(acc, p),
{
    (
        Vec3 { x: acc.0.x.min(p.x), y: acc.0.y.min(p.y), z: acc.0.z.min(p.z) },
        Vec3 { x: acc.1.x.max(p.x), y: acc.1.y.max(p.y), z: acc.1.z.max(p.z) },
    )
}

fn rotated_box(m: &Matrix3, bbox: AABB) -> (r: AABB)
    ensures
        r == spec_rotated_box(*m, bbox),
{
    let inf: Scalar = Scalar::infinity();
    let ninf: Scalar = Scalar::neg_infinity();
    let mut acc: (Vec3, Vec3) = (Vec3::new(inf, inf, inf), Vec3::new(ninf, ninf, ninf));
    acc = grow(acc, rotate_vec3(m, Vec3::new(bbox.x.min, bbox.y.min, bbox.z.min)));
    acc = grow(acc, rotate_vec3(m, Vec3::new(bbox.x.min, bbox.y.min, bbox.z.max)));
    acc = grow(acc, rotate_vec3(m, Vec3::new(bbox.x.min, bbox.y.max, bbox.z.min)));
    acc = grow(acc, rotate_vec3(m, Vec3::new(bbox.x.min, bbox.y.max, bbox.z.max)));
    acc = grow(acc, rotate_vec3(m, Vec3::new(bbox.x.max, bbox.y.min, bbox.z.min)));
    acc = grow(acc, rotate_vec3(m, Vec3::new(bbox.x.max, bbox.y.min, bbox.z.max)));
    acc = grow(acc, rotate_vec3(m, Vec3::new(bbox.x.max, bbox.y.max, bbox.z.min)));
    acc = grow(acc, rotate_vec3(m, Vec3::new(bbox.x.max, bbox.y.max, bbox.z.max)));
    AABB::from_points(acc.0, acc.1)
}

/// An object turned by three angles in degrees.
///
/// `rotation_matrix` takes world coordinates to the object's own,
/// `inverse_rotation` takes them back.
pub struct Rotate {
    pub object: Arc<Hittable>,
    pub rotation_matrix: Matrix3,
    pub inverse_rotation: Matrix3,
    pub bbox: AABB,
}

impl Rotate {
    /// The inverse is the transpose, and the box is that of the object's
    /// box turned back into the world.
    pub open spec fn spec_wf(self) -> bool {
        &&& self.inverse_rotation == spec_transpose(self.rotation_matrix)
        &&& self.bbox == spec_rotated_box(self.inverse_rotation, self.object.spec_bounding_box())
    }

    /// The ray as the object sees it.
    pub open spec fn spec_rotated_ray(self, r: Ray) -> Ray {
        Ray::spec_with_time(
            spec_rotate_vec3(self.rotation_matrix, r.orig),
            spec_rotate_vec3(self.rotation_matrix, r.dir),
            r.time,
        )
    }

    /// The record of the object's hit, with point and normal turned back
    /// into the world.
    pub open spec fn spec_turned(self, rec: HitRecord) -> HitRecord {
        HitRecord {
            p: spec_rotate_vec3(self.inverse_rotation, rec.p),
            normal: spec_rotate_vec3(self.inverse_rotation, rec.normal),
            material: rec.material,
            t: rec.t,
            u: rec.u,
            v: rec.v,
            front_face: rec.front_face,
        }
    }

    pub open spec fn spec_hit(self, r: Ray, ray_t: Interval, seed: u64) -> (Option<HitRecord>, u64)
        decreases self,
    {
        let (found, next) = self.object.spec_hit(self.spec_rotated_ray(r), ray_t, seed);
        match found {
            Some(rec) => (Some(self.spec_turned(rec)), next),
            None => (None, next),
        }
    }

    /// The object turned by `angles`, in degrees.
    pub fn new(object: Arc<Hittable>, angles: Vec3) -> (r: Rotate)
        ensures
            r.object == object,
            r.rotation_matrix == spec_rotation(angles),
            r.spec_wf(),
    {
        let rotation_matrix: Matrix3 = rotation(angles);
        let inverse_rotation: Matrix3 = transpose(&rotation_matrix);
        let bbox: AABB = rotated_box(&inverse_rotation, object.bounding_box());
        Rotate { object, rotation_matrix, inverse_rotation, bbox }
    }

    pub fn hit(&self, r: &Ray, ray_t: Interval, rng: &mut Sampler) -> (res: Option<HitRecord>)
        ensures
            (res, final(rng).seed) == self.spec_hit(*r, ray_t, old(rng).seed),
        decreases self,
    {
        let rotated_ray: Ray = Ray::with_time(
            rotate_vec3(&self.rotation_matrix, r.orig),
            rotate_vec3(&self.rotation_matrix, r.dir),
            r.time,
        );
        match self.object.hit(&rotated_ray, ray_t, rng) {
            Some(rec) => {
                let mut rec: HitRecord = rec;
                rec.p = rotate_vec3(&self.inverse_rotation, rec.p);
                rec.normal = rotate_vec3(&self.inverse_rotation, rec.normal);
                Some(rec)
            },
            None => None,
        }
    }

    pub fn bounding_box(&self) -> (r: AABB)
        ensures
            r == self.bbox,
    {
        self.bbox
    }
}

} // verus!
