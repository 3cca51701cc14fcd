//! Rays: a point, a direction and the moment of the shutter they belong to.
use vstd::prelude::*;
use crate::utility::scalar::Scalar;
use crate::utility::vec3::{Point3, Vec3};

verus! {

#[derive(Clone, Copy, Debug, PartialEq, Eq, Structural)]
pub struct Ray {
    pub orig: Point3,
    pub dir: Vec3,
    pub time: Scalar,
}

impl Ray {
    pub open spec fn spec_new(orig: Point3, dir: Vec3) -> Ray {
        Ray { orig, dir, time: Scalar::spec_zero() }
    }

    pub open spec fn spec_with_time(orig: Point3, dir: Vec3, time: Scalar) -> Ray {
        Ray { orig, dir, time }
    }

    /// The point `orig + t * dir`.
    pub open spec fn spec_at(self, t: Scalar) -> Point3 {
        self.orig.spec_add(self.dir.spec_scale(t))
    }

    /// A ray at time zero.
    pub fn new(orig: Point3, dir: Vec3) -> (r: Ray)
        ensures
            r == Ray::spec_new(orig, dir),
    {
        Ray { orig, dir, time: Scalar::zero() }
    }

    pub fn with_time(orig: Point3, dir: Vec3, time: Scalar) -> (r: Ray)
        ensures
            r == Ray::spec_with_time(orig, dir, time),
    {
        Ray { orig, dir, time }
    }

    pub fn origin(&self) -> (r: &Point3)
        ensures
            *r == self.orig,
    {
        &self.orig
    }

    pub fn direction(&self) -> (r: &Vec3)
        ensures
            *r == self.dir,
    {
        &self.dir
    }

    pub fn time(&self) -> (r: Scalar)
        ensures
            r == self.time,
    {
        self.time
    }

    pub fn origin_mut(&mut self) -> (r: &mut Point3)
        ensures
            *r == old(self).orig,
            *final(self) == (Ray { orig: *final(r), dir: old(self).dir, time: old(self).time }),
    {
        &mut self.orig
    }

    pub fn direction_mut(&mut self) -> (r: &mut Vec3)
        ensures
            *r == old(self).dir,
            *final(self) == (Ray { orig: old(self).orig, dir: *final(r), time: old(self).time }),
    {
        &mut self.dir
    }

    pub fn at(&self, t: Scalar) -> (r: Point3)
        ensures
            r == self.spec_at(t),
    {
        self.orig.add(self.dir.scale(t))
    }
}

impl Default for Ray {
    fn default() -> (r: Ray)
        ensures
            r == Ray::spec_new(Vec3::spec_zero(), Vec3::spec_zero()),
    {
        Ray::new(Vec3::zero(), Vec3::zero())
    }
}

} // verus!
