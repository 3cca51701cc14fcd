//! The record of an intersection, and the closed set of things a ray can hit.
use vstd::prelude::*;
use std::sync::Arc;
use crate::figures::aabb::AABB;
use crate::figures::bvh::BvhNode;
use crate::figures::constant_medium::ConstantMedium;
use crate::figures::cube::Cube;
use crate::figures::rotate::Rotate;
use crate::figures::hittable_list::HitList;
use crate::figures::quad::{Disk, Quad, Rect, Tri};
use crate::figures::sphere::Sphere;
use crate::figures::translate::Translate;
use crate::materials::lambertian::Lambertian;
use crate::materials::material::{Material, default_material};
use crate::utility::interval::Interval;
use crate::utility::scalar::Scalar;
use crate::utility::ray::Ray;
use crate::utility::utils::Sampler;
use crate::utility::vec3::{Point3, Vec3};

verus! {

/// Where and how a ray met a surface.
///
/// `normal` points against the ray; `front_face` tells whether the ray came
/// from outside.
#[derive(Debug)]
pub struct HitRecord {
    pub p: Point3,
    pub normal: Vec3,
    pub material: Arc<Material>,
    pub t: Scalar,
    pub u: Scalar,
    pub v: Scalar,
    pub front_face: bool,
}

/// Calls `std::sync::Arc::clone`: the new pointer leads to the value that
/// `a` leads to.
#[verifier::external_body]
pub(crate) fn share<T>(a: &Arc<T>) -> (r: Arc<T>)
    ensures
        r == *a,
{
    Arc::clone(a)
}

impl Default for HitRecord {
    /// The record that no surface has filled in: at the origin, of the
    /// default material.
    fn default() -> (r: HitRecord)
        ensures
            r.p == Vec3::spec_zero(),
            r.normal == Vec3::spec_zero(),
            r.t == Scalar::spec_zero(),
            r.u == Scalar::spec_zero(),
            r.v == Scalar::spec_zero(),
            !r.front_face,
            *r.material == Material::Lambertian(Lambertian::spec_new(Vec3::spec_zero())),
    {
        HitRecord {
            p: Vec3::zero(),
            normal: Vec3::zero(),
            material: Arc::new(Material::Lambertian(default_material())),
            t: Scalar::zero(),
            u: Scalar::zero(),
            v: Scalar::zero(),
            front_face: false,
        }
    }
}

impl HitRecord {
    /// The ray meets the front of a surface with this outward normal.
    pub open spec fn spec_front_face(r: Ray, outward_normal: Vec3) -> bool {
        r.dir.spec_dot(outward_normal).raw < 0
    }

    /// The outward normal, turned against the ray.
    pub open spec fn spec_face_normal(r: Ray, outward_normal: Vec3) -> Vec3 {
        if HitRecord::spec_front_face(r, outward_normal) {
            outward_normal
        } else {
            outward_normal.spec_neg()
        }
    }

    /// Sets `front_face` and `normal` from the ray and the outward normal,
    /// which is taken to have unit length.
    pub fn set_face_normal(&mut self, r: &Ray, outward_normal: &Vec3)
        ensures
            final(self).front_face == HitRecord::spec_front_face(*r, *outward_normal),
            final(self).normal == HitRecord::spec_face_normal(*r, *outward_normal),
            final(self).p == old(self).p,
            final(self).material == old(self).material,
            final(self).t == old(self).t,
            final(self).u == old(self).u,
            final(self).v == old(self).v,
    {
        self.front_face = r.dir.dot(outward_normal).raw < 0;
        self.normal = if self.front_face {
            *outward_normal
        } else {
            outward_normal.neg()
        };
    }
}

/// The normal of a record never points along the ray: its product with
/// the ray's direction is not above zero.
pub proof fn lemma_face_normal_opposes(r: Ray, outward_normal: Vec3)
    requires
        outward_normal.x.raw > i64::MIN,
        outward_normal.y.raw > i64::MIN,
        outward_normal.z.raw > i64::MIN,
    ensures
        r.dir.spec_dot(HitRecord::spec_face_normal(r, outward_normal)).raw <= 0,
{
    r.dir.x.lemma_mul_neg(outward_normal.x);
    r.dir.y.lemma_mul_neg(outward_normal.y);
    r.dir.z.lemma_mul_neg(outward_normal.z);
}

/// Anything a ray can hit: a primitive, a wrapper around another object,
/// or an aggregate of objects.
pub enum Hittable {
    Sphere(Sphere),
    Rect(Quad<Rect>),
    Tri(Quad<Tri>),
    Disk(Quad<Disk>),
    Cube(Cube),
    Medium(ConstantMedium),
    Translate(Translate),
    Rotate(Rotate),
    List(HitList),
    Bvh(BvhNode),
}

impl Hittable {
    /// The nearest hit of `r` inside `ray_t`, if there is one, with the
    /// random draws that start from `seed`; and the seed left behind.
    pub open spec fn spec_hit(&self, r: Ray, ray_t: Interval, seed: u64) -> (Option<HitRecord>, u64)
        decreases self,
    {
        match self {
            Hittable::Sphere(s) => (s.spec_hit(r, ray_t), seed),
            Hittable::Rect(q) => (q.spec_hit(r, ray_t), seed),
            Hittable::Tri(q) => (q.spec_hit(r, ray_t), seed),
            Hittable::Disk(q) => (q.spec_hit(r, ray_t), seed),
            Hittable::Cube(c) => c.spec_hit(r, ray_t, seed),
            Hittable::Medium(m) => m.spec_hit(r, ray_t, seed),
            Hittable::Translate(t) => t.spec_hit(r, ray_t, seed),
            Hittable::Rotate(t) => t.spec_hit(r, ray_t, seed),
            Hittable::List(l) => l.spec_hit(r, ray_t, seed),
            Hittable::Bvh(n) => n.spec_hit(r, ray_t, seed),
        }
    }

    /// A box that encloses the object.
    pub open spec fn spec_bounding_box(&self) -> AABB
        decreases self,
    {
        match self {
            Hittable::Sphere(s) => s.bbox,
            Hittable::Rect(q) => q.bbox,
            Hittable::Tri(q) => q.bbox,
            Hittable::Disk(q) => q.bbox,
            Hittable::Cube(c) => c.faces.bbox,
            Hittable::Medium(m) => m.boundary.spec_bounding_box(),
            Hittable::Translate(t) => t.bbox,
            Hittable::Rotate(t) => t.bbox,
            Hittable::List(l) => l.bbox,
            Hittable::Bvh(n) => n.bbox,
        }
    }

    pub fn hit(&self, r: &Ray, ray_t: Interval, rng: &mut Sampler) -> (res: Option<HitRecord>)
        ensures
            (res, final(rng).seed) == self.spec_hit(*r, ray_t, old(rng).seed),
        decreases self,
    {
        match self {
            Hittable::Sphere(s) => s.hit(r, ray_t),
            Hittable::Rect(q) => q.hit(r, ray_t),
            Hittable::Tri(q) => q.hit(r, ray_t),
            Hittable::Disk(q) => q.hit(r, ray_t),
            Hittable::Cube(c) => c.hit(r, ray_t, rng),
            Hittable::Medium(m) => m.hit(r, ray_t, rng),
            Hittable::Translate(t) => t.hit(r, ray_t, rng),
            Hittable::Rotate(t) => t.hit(r, ray_t, rng),
            Hittable::List(l) => l.hit(r, ray_t, rng),
            Hittable::Bvh(n) => n.hit(r, ray_t, rng),
        }
    }

    pub fn bounding_box(&self) -> (r: AABB)
        ensures
            r == self.spec_bounding_box(),
        decreases self,
    {
        match self {
            Hittable::Sphere(s) => s.bounding_box(),
            Hittable::Rect(q) => q.bounding_box(),
            Hittable::Tri(q) => q.bounding_box(),
            Hittable::Disk(q) => q.bounding_box(),
            Hittable::Cube(c) => c.bounding_box(),
            Hittable::Medium(m) => m.bounding_box(),
            Hittable::Translate(t) => t.bounding_box(),
            Hittable::Rotate(t) => t.bounding_box(),
            Hittable::List(l) => l.bounding_box(),
            Hittable::Bvh(n) => n.bounding_box(),
        }
    }
}

} // verus!
