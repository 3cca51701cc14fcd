//! Flat primitives spanned by two edges from a corner: parallelograms,
//! triangles and ellipses.
use vstd::prelude::*;
use std::marker::PhantomData;
use std::sync::Arc;
use crate::figures::aabb::AABB;
use crate::figures::hittable::{HitRecord, share};
use crate::materials::material::Material;
use crate::utility::interval::Interval;
use crate::utility::ray::Ray;
use crate::utility::scalar::Scalar;
use crate::utility::vec3::{Point3, Vec3};

verus! {

/// Raw magnitude of the cosine between ray and plane normal below which the
/// ray counts as parallel to the plane.
pub const PARALLEL: i64 = 100;

/// The box around both diagonals of the parallelogram at `q` with edges
/// `u` and `v`.
pub open spec fn spec_diagonal_box(q: Point3, u: Vec3, v: Vec3) -> AABB {
    AABB::spec_from_points(q, q.spec_add(u).spec_add(v)).spec_concat(
        AABB::spec_from_points(q.spec_add(u), q.spec_add(v)),
    )
}

pub fn diagonal_box(q: Point3, u: Vec3, v: Vec3) -> (r: AABB)
    ensures
        r == spec_diagonal_box(q, u, v),
{
    let mut bbox_diagonal1: AABB = AABB::from_points(q, q.add(u).add(v));
    let bbox_diagonal2: AABB = AABB::from_points(q.add(u), q.add(v));
    bbox_diagonal1.concat(bbox_diagonal2);
    bbox_diagonal1
}

/// The shape that is cut out of the plane of a [`Quad`].
pub trait QuadPrimitive {
    /// The surface coordinates of the point with plane coordinates
    /// `(alpha, beta)`, if the point belongs to the shape.
    spec fn spec_interior(alpha: Scalar, beta: Scalar) -> Option<(Scalar, Scalar)>;

    /// The box of the shape at `q` with edges `u` and `v`.
    spec fn spec_bounding_box(q: Point3, u: Vec3, v: Vec3) -> AABB;

    fn is_interior(alpha: Scalar, beta: Scalar) -> (r: Option<(Scalar, Scalar)>)
        ensures
            r == Self::spec_interior(alpha, beta),
    ;

    fn set_bounding_box(q: Point3, u: Vec3, v: Vec3) -> (r: AABB)
        ensures
            r == Self::spec_bounding_box(q, u, v),
    ;
}

/// The parallelogram: both plane coordinates in `0 ..= 1`.
#[derive(Debug)]
pub struct Rect;

/// The triangle on the corner and the two edge ends: both plane coordinates
/// above zero and their sum below one.
#[derive(Debug)]
pub struct Tri;

/// The ellipse around the corner with the edges as half axes.
#[derive(Debug)]
pub struct Disk;

impl QuadPrimitive for Rect {
    open spec fn spec_interior(alpha: Scalar, beta: Scalar) -> Option<(Scalar, Scalar)> {
        if 0 <= alpha.raw <= 1_000_000 && 0 <= beta.raw <= 1_000_000 {
            Some((alpha, beta))
        } else {
            None
        }
    }

    open spec fn spec_bounding_box(q: Point3, u: Vec3, v: Vec3) -> AABB {
        spec_diagonal_box(q, u, v)
    }

    fn is_interior(alpha: Scalar, beta: Scalar) -> (r: Option<(Scalar, Scalar)>) {
        let unit_interval: Interval = Interval::new(Scalar::zero(), Scalar::one());
        if !unit_interval.contains(alpha) || !unit_interval.contains(beta) {
            return None;
        }
        Some((alpha, beta))
    }

    fn set_bounding_box(q: Point3, u: Vec3, v: Vec3) -> (r: AABB) {
        diagonal_box(q, u, v)
    }
}

impl QuadPrimitive for Tri {
    open spec fn spec_interior(alpha: Scalar, beta: Scalar) -> Option<(Scalar, Scalar)> {
        if alpha.raw <= 0 || beta.raw <= 0 || alpha.spec_add(beta).raw >= 1_000_000 {
            None
        } else {
            Some((alpha, beta))
        }
    }

    open spec fn spec_bounding_box(q: Point3, u: Vec3, v: Vec3) -> AABB {
        spec_diagonal_box(q, u, v)
    }

    fn is_interior(alpha: Scalar, beta: Scalar) -> (r: Option<(Scalar, Scalar)>) {
        if alpha.raw <= 0 || beta.raw <= 0 || alpha.add(beta).raw >= 1_000_000 {
            return None;
        }
        Some((alpha, beta))
    }

    fn set_bounding_box(q: Point3, u: Vec3, v: Vec3) -> (r: AABB) {
        diagonal_box(q, u, v)
    }
}

impl QuadPrimitive for Disk {
    open spec fn spec_interior(alpha: Scalar, beta: Scalar) -> Option<(Scalar, Scalar)> {
        if alpha.spec_square().spec_add(beta.spec_square()).raw > 1_000_000 {
            None
        } else {
            let half = Scalar::spec_from_ratio(1, 2);
            Some(
                (
                    alpha.spec_div(Scalar::spec_from_int(2)).spec_add(half),
                    beta.spec_div(Scalar::spec_from_int(2)).spec_add(half),
                ),
            )
        }
    }

    open spec fn spec_bounding_box(q: Point3, u: Vec3, v: Vec3) -> AABB {
        AABB::spec_from_points(q.spec_sub(u).spec_sub(v), q.spec_add(u).spec_add(v))
    }

    fn is_interior(alpha: Scalar, beta: Scalar) -> (r: Option<(Scalar, Scalar)>) {
        if alpha.square().add(beta.square()).raw > 1_000_000 {
            return None;
        }
        let half: Scalar = Scalar::from_ratio(1, 2);
        Some((alpha.div(Scalar::from_int(2)).add(half), beta.div(Scalar::from_int(2)).add(half)))
    }

    fn set_bounding_box(q: Point3, u: Vec3, v: Vec3) -> (r: AABB) {
        AABB::from_points(q.sub(u).sub(v), q.add(u).add(v))
    }
}

/// A flat primitive in the plane through `q` spanned by `u` and `v`.
///
/// `normal` is the unit normal `u x v / |u x v|`, `d` the plane's offset
/// `normal . q`, and `area` the length `|u x v|`.
pub struct Quad<T: QuadPrimitive> {
    pub q: Point3,
    pub u: Vec3,
    pub v: Vec3,
    pub mat: Arc<Material>,
    pub bbox: AABB,
    pub normal: Vec3,
    pub d: Scalar,
    pub area: Scalar,
    pub phantom: PhantomData<T>,
}

pub type QRect = Quad<Rect>;

pub type QTri = Quad<Tri>;

pub type QDisk = Quad<Disk>;

impl<T: QuadPrimitive> Quad<T> {
    /// The cached values are those of the corner and the edges.
    #[verifier::opaque]
    pub open spec fn spec_wf(self) -> bool {
        &&& self.bbox == T::spec_bounding_box(self.q, self.u, self.v)
        &&& self.normal == self.u.spec_cross(self.v).spec_unit_vec()
        &&& self.d == self.normal.spec_dot(self.q)
        &&& self.area == self.u.spec_cross(self.v).spec_len()
    }

    /// The parameter at which the ray crosses the plane, if it is not
    /// parallel to the plane and crosses it inside `ray_t`.
    pub open spec fn spec_plane_t(self, r: Ray, ray_t: Interval) -> Option<Scalar> {
        let denom = self.normal.spec_dot(r.dir);
        if denom.spec_abs().raw < PARALLEL {
            None
        } else {
            let t = self.d.spec_sub(self.normal.spec_dot(r.orig)).spec_div(denom);
            if ray_t.spec_contains(t) {
                Some(t)
            } else {
                None
            }
        }
    }

    /// The coordinates of the point `p` of the plane along the edges `u`
    /// and `v`, measured from `q`.
    pub open spec fn spec_plane_coordinates(self, p: Point3) -> (Scalar, Scalar) {
        let planar = p.spec_sub(self.q);
        (
            self.normal.spec_dot(planar.spec_cross(self.v)).spec_div(self.area),
            self.normal.spec_dot(self.u.spec_cross(planar)).spec_div(self.area),
        )
    }

    /// The hit of the ray inside `ray_t`, bounds included.
    #[verifier::opaque]
    pub open spec fn spec_hit(self, r: Ray, ray_t: Interval) -> Option<HitRecord> {
        match self.spec_plane_t(r, ray_t) {
            None => None,
            Some(t) => {
                let intersection = r.spec_at(t);
                let (alpha, beta) = self.spec_plane_coordinates(intersection);
                match T::spec_interior(alpha, beta) {
                    None => None,
                    Some((u, v)) => Some(
                        HitRecord {
                            p: intersection,
                            normal: HitRecord::spec_face_normal(r, self.normal),
                            material: self.mat,
                            t,
                            u,
                            v,
                            front_face: HitRecord::spec_front_face(r, self.normal),
                        },
                    ),
                }
            },
        }
    }

    pub fn new(q: Point3, u: Vec3, v: Vec3, mat: Arc<Material>) -> (r: Self)
        ensures
            r.q == q,
            r.u == u,
            r.v == v,
            r.mat == mat,
            r.spec_wf(),
    {
        proof {
            reveal(Quad::spec_wf);
        }
        let bbox: AABB = T::set_bounding_box(q, u, v);
        let n: Vec3 = u.cross(&v);
        let normal: Vec3 = n.unit_vec();
        let d: Scalar = normal.dot(&q);
        let area: Scalar = n.len();
        Quad { q, u, v, mat, bbox, normal, d, area, phantom: PhantomData }
    }

    pub fn hit(&self, r: &Ray, ray_t: Interval) -> (res: Option<HitRecord>)
        ensures
            res == self.spec_hit(*r, ray_t),
    {
        proof {
            reveal(Quad::spec_hit);
        }
        let denom: Scalar = self.normal.dot(&r.dir);
        if denom.abs().raw < PARALLEL {
            return None;
        }
        let t: Scalar = self.d.sub(self.normal.dot(&r.orig)).div(denom);
        if !ray_t.contains(t) {
            return None;
        }
        let intersection: Point3 = r.at(t);
        let planar_hitpt_vector: Vec3 = intersection.sub(self.q);
        let alpha: Scalar = self.normal.dot(&planar_hitpt_vector.cross(&self.v)).div(self.area);
        let beta: Scalar = self.normal.dot(&self.u.cross(&planar_hitpt_vector)).div(self.area);
        match T::is_interior(alpha, beta) {
            None => None,
            Some((u, v)) => {
                let mut rec: HitRecord = HitRecord {
                    p: intersection,
                    normal: self.normal,
                    material: share(&self.mat),
                    t,
                    u,
                    v,
                    front_face: true,
                };
                rec.set_face_normal(r, &self.normal);
                Some(rec)
            },
        }
    }

    pub fn bounding_box(&self) -> (r: AABB)
        ensures
            r == self.bbox,
    {
        self.bbox
    }
}

} // verus!
