//! A box with its faces along the axes.
use vstd::prelude::*;
use std::sync::Arc;
use crate::figures::aabb::AABB;
use crate::figures::hittable::{HitRecord, Hittable, share};
use crate::figures::hittable_list::HitList;
use crate::figures::quad::Quad;
use crate::materials::material::Material;
use crate::utility::interval::Interval;
use crate::utility::ray::Ray;
use crate::utility::scalar::Scalar;
use crate::utility::utils::Sampler;
use crate::utility::vec3::{Point3, Vec3};

verus! {

/// Six rectangles: back, front, left, right, top and bottom.
pub struct Cube {
    pub faces: HitList,
}

/// The corner of the box between `a` and `b` with the least coordinates.
pub open spec fn spec_min_corner(a: Point3, b: Point3) -> Point3 {
    Vec3 { x: a.x.spec_min(b.x), y: a.y.spec_min(b.y), z: a.z.spec_min(b.z) }
}

/// The corner of the box between `a` and `b` with the greatest coordinates.
pub open spec fn spec_max_corner(a: Point3, b: Point3) -> Point3 {
    Vec3 { x: a.x.spec_max(b.x), y: a.y.spec_max(b.y), z: a.z.spec_max(b.z) }
}

/// `h` is the rectangle at `q` with edges `u` and `v`, of material `mat`.
pub open spec fn spec_is_face(h: Hittable, q: Point3, u: Vec3, v: Vec3, mat: Material) -> bool {
    &&& h is Rect
    &&& h->Rect_0.q == q
    &&& h->Rect_0.u == u
    &&& h->Rect_0.v == v
    &&& *h->Rect_0.mat == mat
    &&& h->Rect_0.spec_wf()
}

fn face(q: Point3, u: Vec3, v: Vec3, mat: &Arc<Material>) -> (r: Arc<Hittable>)
    ensures
        spec_is_face(*r, q, u, v, **mat),
{
    Arc::new(Hittable::Rect(Quad::new(q, u, v, share(mat))))
}

impl Cube {
    /// The faces are the six rectangles of the box between `a` and `b`.
    pub open spec fn spec_is_box(self, a: Point3, b: Point3, mat: Material) -> bool {
        let min = spec_min_corner(a, b);
        let max = spec_max_corner(a, b);
        let zero = Scalar::spec_zero();
        let dx = Vec3 { x: max.x.spec_sub(min.x), y: zero, z: zero };
        let dy = Vec3 { x: zero, y: max.y.spec_sub(min.y), z: zero };
        let dz = Vec3 { x: zero, y: zero, z: max.z.spec_sub(min.z) };
        &&& self.faces.list@.len() == 6
        &&& spec_is_face(*self.faces.list@[0], min, dx, dy, mat)
        &&& spec_is_face(*self.faces.list@[1], Vec3 { x: min.x, y: min.y, z: max.z }, dx, dy, mat)
        &&& spec_is_face(*self.faces.list@[2], min, dz, dy, mat)
        &&& spec_is_face(*self.faces.list@[3], Vec3 { x: max.x, y: min.y, z: min.z }, dz, dy, mat)
        &&& spec_is_face(*self.faces.list@[4], Vec3 { x: min.x, y: max.y, z: min.z }, dx, dz, mat)
        &&& spec_is_face(*self.faces.list@[5], min, dx, dz, mat)
    }

    pub open spec fn spec_hit(self, r: Ray, ray_t: Interval, seed: u64) -> (Option<HitRecord>, u64)
        decreases self,
    {
        self.faces.spec_hit(r, ray_t, seed)
    }

    /// The box with `a` and `b` at opposite corners, in any order.
    pub fn new(a: Point3, b: Point3, mat: Arc<Material>) -> (r: Cube)
        ensures
            r.spec_is_box(a, b, *mat),
            r.faces.spec_wf(),
    {
        let mut faces: HitList = HitList::new();
        let min: Point3 = Vec3::new(a.x.min(b.x), a.y.min(b.y), a.z.min(b.z));
        let max: Point3 = Vec3::new(a.x.max(b.x), a.y.max(b.y), a.z.max(b.z));
        let zero: Scalar = Scalar::zero();
        let dx: Vec3 = Vec3::new(max.x.sub(min.x), zero, zero);
        let dy: Vec3 = Vec3::new(zero, max.y.sub(min.y), zero);
        let dz: Vec3 = Vec3::new(zero, zero, max.z.sub(min.z));
        faces.push(face(min, dx, dy, &mat));
        faces.push(face(Vec3::new(min.x, min.y, max.z), dx, dy, &mat));
        faces.push(face(min, dz, dy, &mat));
        faces.push(face(Vec3::new(max.x, min.y, min.z), dz, dy, &mat));
        faces.push(face(Vec3::new(min.x, max.y, min.z), dx, dz, &mat));
        faces.push(face(min, dx, dz, &mat));
        Cube { faces }
    }

    pub fn hit(&self, r: &Ray, ray_t: Interval, rng: &mut Sampler) -> (res: Option<HitRecord>)
        ensures
            (res, final(rng).seed) == self.spec_hit(*r, ray_t, old(rng).seed),
        decreases self,
    {
        self.faces.hit(r, ray_t, rng)
    }

    pub fn bounding_box(&self) -> (r: AABB)
        ensures
            r == self.faces.bbox,
    {
        self.faces.bounding_box()
    }
}

} // verus!
