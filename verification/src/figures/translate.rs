//! An object moved by an offset.
use vstd::prelude::*;
use std::sync::Arc;
use crate::figures::aabb::AABB;
use crate::figures::hittable::{HitRecord, Hittable};
use crate::utility::interval::Interval;
use crate::utility::ray::Ray;
use crate::utility::utils::Sampler;
use crate::utility::vec3::Vec3;

verus! {

pub struct Translate {
    pub object: Arc<Hittable>,
    pub offset: Vec3,
    pub bbox: AABB,
}

impl Translate {
    /// The box is that of the object, moved by the offset.
    pub open spec fn spec_wf(self) -> bool {
        self.bbox == self.object.spec_bounding_box().spec_add(self.offset)
    }

    /// The ray as the object sees it: moved back by the offset.
    pub open spec fn spec_offset_ray(self, r: Ray) -> Ray {
        Ray::spec_with_time(r.orig.spec_sub(self.offset), r.dir, r.time)
    }

    /// The record of the object's hit, with the hit point moved by the offset.
    pub open spec fn spec_moved(self, rec: HitRecord) -> HitRecord {
        HitRecord {
            p: rec.p.spec_add(self.offset),
            normal: rec.normal,
            material: rec.material,
            t: rec.t,
            u: rec.u,
            v: rec.v,
            front_face: rec.front_face,
        }
    }

    pub open spec fn spec_hit(self, r: Ray, ray_t: Interval, seed: u64) -> (Option<HitRecord>, u64)
        decreases self,
    {
        let (found, next) = self.object.spec_hit(self.spec_offset_ray(r), ray_t, seed);
        match found {
            Some(rec) => (Some(self.spec_moved(rec)), next),
            None => (None, next),
        }
    }

    pub fn new(object: Arc<Hittable>, offset: Vec3) -> (r: Translate)
        ensures
            r.object == object,
            r.offset == offset,
            r.spec_wf(),
    {
        let bbox: AABB = object.bounding_box().add(offset);
        Translate { object, offset, bbox }
    }

    pub fn hit(&self, r: &Ray, ray_t: Interval, rng: &mut Sampler) -> (res: Option<HitRecord>)
        ensures
            (res, final(rng).seed) == self.spec_hit(*r, ray_t, old(rng).seed),
        decreases self,
    {
        let offset_ray: Ray = Ray::with_time(r.orig.sub(self.offset), r.dir, r.time);
        match self.object.hit(&offset_ray, ray_t, rng) {
            Some(rec) => {
                let mut rec: HitRecord = rec;
                rec.p = rec.p.add(self.offset);
                Some(rec)
            },
            None => None,
        }
    }

    pub fn bounding_box(&self) -> (r: AABB)
        ensures
            r == self.bbox,
    {
        self.bbox
    }
}

} // verus!
