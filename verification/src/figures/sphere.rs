//! Spheres, at rest or moving in a straight line during the exposure.
use vstd::prelude::*;
use std::sync::Arc;
use crate::figures::aabb::AABB;
use crate::figures::hittable::{HitRecord, share};
use crate::materials::material::Material;
use crate::utility::interval::Interval;
use crate::utility::ray::Ray;
use crate::utility::scalar::{Scalar, lemma_trunc_div_ordered};
use crate::utility::vec3::{Point3, Vec3};

verus! {

/// A sphere whose centre is `center.at(time)` at each moment `time` of the
/// exposure.
#[derive(Debug)]
pub struct Sphere {
    pub center: Ray,
    pub radius: Scalar,
    pub mat: Arc<Material>,
    pub bbox: AABB,
}

/// The cube of half side `radius` around `center`, as a box.
pub open spec fn spec_box_around(center: Point3, radius: Scalar) -> AABB {
    let rvec = Vec3 { x: radius, y: radius, z: radius };
    AABB::spec_from_points(center.spec_sub(rvec), center.spec_add(rvec))
}

/// Surface coordinates of the point `p` of the unit sphere: `u` is the
/// angle around the y axis from `x = -1`, `v` the angle from `y = -1` up to
/// `y = 1`, each as a share of its full range.
pub open spec fn spec_sphere_uv(p: Point3) -> (Scalar, Scalar) {
    let theta = p.y.spec_neg().spec_acos();
    let phi = p.z.spec_neg().spec_atan2(p.x).spec_add(Scalar::spec_pi());
    (
        phi.spec_div(Scalar::spec_from_int(2).spec_mul(Scalar::spec_pi())),
        theta.spec_div(Scalar::spec_pi()),
    )
}

fn box_around(center: Point3, radius: Scalar) -> (r: AABB)
    ensures
        r == spec_box_around(center, radius),
{
    let rvec: Vec3 = Vec3::new(radius, radius, radius);
    AABB::from_points(center.sub(rvec), center.add(rvec))
}

impl Sphere {
    /// The radius is not negative, and the box holds the sphere at both
    /// ends of its way.
    pub open spec fn spec_wf(&self) -> bool {
        &&& self.radius.raw >= 0
        &&& self.bbox == spec_box_around(
            self.center.spec_at(Scalar::spec_zero()),
            self.radius,
        ).spec_concat(spec_box_around(self.center.spec_at(Scalar::spec_one()), self.radius))
    }

    /// The parameter at which the ray meets the sphere inside `ray_t`: the
    /// nearer root of `|orig + t dir - center|^2 = radius^2` if it lies
    /// strictly inside, else the farther one if that does.
    pub open spec fn spec_root(self, r: Ray, ray_t: Interval) -> Option<Scalar> {
        let oc = self.center.spec_at(r.time).spec_sub(r.orig);
        let a = r.dir.spec_len_square();
        let h = r.dir.spec_dot(oc);
        let c = oc.spec_len_square().spec_sub(self.radius.spec_square());
        let discriminant = h.spec_square().spec_sub(a.spec_mul(c));
        if discriminant.raw < 0 {
            None
        } else {
            let sqrtd = discriminant.spec_sqrt();
            let near = h.spec_sub(sqrtd).spec_div(a);
            let far = h.spec_add(sqrtd).spec_div(a);
            if ray_t.spec_surrounds(near) {
                Some(near)
            } else if ray_t.spec_surrounds(far) {
                Some(far)
            } else {
                None
            }
        }
    }

    /// The record of the hit at parameter `t`.
    pub open spec fn spec_record(self, r: Ray, t: Scalar) -> HitRecord {
        let p = r.spec_at(t);
        let outward_normal = p.spec_sub(self.center.spec_at(r.time)).spec_div(self.radius);
        let (u, v) = spec_sphere_uv(outward_normal);
        HitRecord {
            p,
            normal: HitRecord::spec_face_normal(r, outward_normal),
            material: self.mat,
            t,
            u,
            v,
            front_face: HitRecord::spec_front_face(r, outward_normal),
        }
    }

    /// The nearest hit of the ray strictly inside `ray_t`.
    #[verifier::opaque]
    pub open spec fn spec_hit(self, r: Ray, ray_t: Interval) -> Option<HitRecord> {
        match self.spec_root(r, ray_t) {
            Some(t) => Some(self.spec_record(r, t)),
            None => None,
        }
    }

    /// A sphere at rest; a negative radius counts as zero.
    pub fn new(static_center: Point3, radius: Scalar, mat: Arc<Material>) -> (r: Sphere)
        ensures
            r.center == Ray::spec_new(static_center, Vec3::spec_zero()),
            r.radius == radius.spec_max(Scalar::spec_zero()),
            r.mat == mat,
            r.bbox == spec_box_around(static_center, r.radius),
            r.spec_wf(),
    {
        let center: Ray = Ray::new(static_center, Vec3::zero());
        let radius: Scalar = radius.max(Scalar::zero());
        Sphere { center, radius, mat, bbox: box_around(static_center, radius) }
    }

    /// A sphere that moves from `center1` at time 0 to `center2` at time 1;
    /// its box holds it at both ends.
    pub fn new_animated(center1: Point3, center2: Point3, radius: Scalar, mat: Arc<Material>) -> (r:
        Sphere)
        ensures
            r.center == Ray::spec_new(center1, center2.spec_sub(center1)),
            r.radius == radius.spec_max(Scalar::spec_zero()),
            r.mat == mat,
            r.spec_wf(),
    {
        let center: Ray = Ray::new(center1, center2.sub(center1));
        let radius: Scalar = radius.max(Scalar::zero());
        let mut bbox: AABB = box_around(center.at(Scalar::zero()), radius);
        let box2: AABB = box_around(center.at(Scalar::one()), radius);
        bbox.concat(box2);
        Sphere { center, radius, mat, bbox }
    }

    /// Writes the surface coordinates of the point `p` of the unit sphere
    /// to `u` and `v`.
    pub fn get_sphere_uv(&self, p: Point3, u: &mut Scalar, v: &mut Scalar)
        ensures
            (*final(u), *final(v)) == spec_sphere_uv(p),
    {
        let theta: Scalar = p.y.neg().acos();
        let phi: Scalar = p.z.neg().atan2(p.x).add(Scalar::pi());
        *u = phi.div(Scalar::from_int(2).mul(Scalar::pi()));
        *v = theta.div(Scalar::pi());
    }

    pub fn hit(&self, r: &Ray, ray_t: Interval) -> (res: Option<HitRecord>)
        ensures
            res == self.spec_hit(*r, ray_t),
    {
        proof {
            reveal(Sphere::spec_hit);
        }
        let current_center: Point3 = self.center.at(r.time);
        let oc: Vec3 = current_center.sub(r.orig);
        let a: Scalar = r.dir.len_square();
        let h: Scalar = r.dir.dot(&oc);
        let c: Scalar = oc.len_square().sub(self.radius.square());
        let discriminant: Scalar = h.square().sub(a.mul(c));
        if discriminant.raw < 0 {
            return None;
        }
        let sqrtd: Scalar = discriminant.sqrt();
        let mut root: Scalar = h.sub(sqrtd).div(a);
        if !ray_t.surrounds(root) {
            root = h.add(sqrtd).div(a);
            if !ray_t.surrounds(root) {
                return None;
            }
        }
        let p: Point3 = r.at(root);
        let outward_normal: Vec3 = p.sub(current_center).div(self.radius);
        let mut u: Scalar = Scalar::zero();
        let mut v: Scalar = Scalar::zero();
        self.get_sphere_uv(outward_normal, &mut u, &mut v);
        let mut rec: HitRecord = HitRecord {
            p,
            normal: outward_normal,
            material: share(&self.mat),
            t: root,
            u,
            v,
            front_face: true,
        };
        rec.set_face_normal(r, &outward_normal);
        Some(rec)
    }

    pub fn bounding_box(&self) -> (r: AABB)
        ensures
            r == self.bbox,
    {
        self.bbox
    }
}

/// A hit of a sphere lies strictly inside the window it was asked for.
pub proof fn lemma_hit_inside(s: Sphere, r: Ray, ray_t: Interval)
    ensures
        s.spec_hit(r, ray_t) is Some ==> ray_t.spec_surrounds(s.spec_hit(r, ray_t)->0.t),
{
    reveal(Sphere::spec_hit);
}

/// Narrowing the far end of the window keeps a hit that is still inside,
/// and leaves none where the hit is not inside any more.
pub proof fn lemma_hit_narrowed(s: Sphere, r: Ray, ray_t: Interval, end: Scalar)
    requires
        end.raw <= ray_t.max.raw,
    ensures
        s.spec_hit(r, Interval { min: ray_t.min, max: end }) == (match s.spec_hit(r, ray_t) {
            Some(h) => if h.t.raw < end.raw {
                Some(h)
            } else {
                None
            },
            None => None,
        }),
{
    reveal(Sphere::spec_hit);
    let oc = s.center.spec_at(r.time).spec_sub(r.orig);
    let a = r.dir.spec_len_square();
    let h = r.dir.spec_dot(oc);
    let c = oc.spec_len_square().spec_sub(s.radius.spec_square());
    let discriminant = h.spec_square().spec_sub(a.spec_mul(c));
    if discriminant.raw >= 0 {
        let sqrtd = discriminant.spec_sqrt();
        let near = h.spec_sub(sqrtd).spec_div(a);
        let far = h.spec_add(sqrtd).spec_div(a);
        r.dir.lemma_len_square_nonnegative();
        discriminant.lemma_sqrt_is_floor();
        if a.raw > 0 {
            lemma_roots_ordered(h, sqrtd, a);
        }
    }
}

/// With a direction that is not zero, the root with the square root taken
/// away is not above the one with it added.
pub proof fn lemma_roots_ordered(h: Scalar, sqrtd: Scalar, a: Scalar)
    requires
        sqrtd.raw >= 0,
        a.raw > 0,
    ensures
        h.spec_sub(sqrtd).spec_div(a).raw <= h.spec_add(sqrtd).spec_div(a).raw,
{
    let lo = h.spec_sub(sqrtd).raw as int;
    let hi = h.spec_add(sqrtd).raw as int;
    assert(lo <= hi);
    lemma_trunc_div_ordered(lo * 1_000_000, hi * 1_000_000, a.raw as int);
}

} // verus!
