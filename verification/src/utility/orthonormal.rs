//! Orthonormal bases.
use vstd::prelude::*;
use crate::utility::scalar::Scalar;
use crate::utility::vec3::Vec3;

verus! {

/// Raw magnitude of the x component above which a direction counts as
/// close to the x axis.
pub const NEAR_X_AXIS: i64 = 900_000;

/// Three unit vectors at right angles; `w` is the one the basis was made for.
#[derive(Clone, Copy, Debug, PartialEq, Eq, Structural)]
pub struct Onb {
    pub u: Vec3,
    pub v: Vec3,
    pub w: Vec3,
}

impl Onb {
    /// The basis around `n`: `w` is `n` at unit length, `v` is at right
    /// angles to `w` and to the x axis (or the y axis, where `w` is close to
    /// the x axis), and `u` is `w x v`.
    pub open spec fn spec_new(n: Vec3) -> Onb {
        let w = n.spec_unit_vec();
        let a = if w.x.spec_abs().raw > NEAR_X_AXIS {
            Vec3 { x: Scalar::spec_zero(), y: Scalar::spec_one(), z: Scalar::spec_zero() }
        } else {
            Vec3 { x: Scalar::spec_one(), y: Scalar::spec_zero(), z: Scalar::spec_zero() }
        };
        let v = w.spec_cross(a).spec_unit_vec();
        Onb { u: w.spec_cross(v), v, w }
    }

    /// The vector with coordinates `p` in this basis.
    pub open spec fn spec_transform(self, p: Vec3) -> Vec3 {
        self.u.spec_scale(p.x).spec_add(self.v.spec_scale(p.y)).spec_add(self.w.spec_scale(p.z))
    }

    pub fn new(n: Vec3) -> (r: Onb)
        ensures
            r == Onb::spec_new(n),
    {
        let w: Vec3 = n.unit_vec();
        let a: Vec3 = if w.x.abs().raw > NEAR_X_AXIS {
            Vec3::new(Scalar::zero(), Scalar::one(), Scalar::zero())
        } else {
            Vec3::new(Scalar::one(), Scalar::zero(), Scalar::zero())
        };
        let v: Vec3 = w.cross(&a).unit_vec();
        Onb { u: w.cross(&v), v, w }
    }

    pub fn u(&self) -> (r: Vec3)
        ensures
            r == self.u,
    {
        self.u
    }

    pub fn v(&self) -> (r: Vec3)
        ensures
            r == self.v,
    {
        self.v
    }

    pub fn w(&self) -> (r: Vec3)
        ensures
            r == self.w,
    {
        self.w
    }

    pub fn transform(&self, p: Vec3) -> (r: Vec3)
        ensures
            r == self.spec_transform(p),
    {
        self.u.scale(p.x).add(self.v.scale(p.y)).add(self.w.scale(p.z))
    }
}

} // verus!
