//! Densities over directions, to draw from and to weigh by.
use vstd::prelude::*;
use crate::utility::orthonormal::Onb;
use crate::utility::scalar::Scalar;
use crate::utility::utils::Sampler;
use crate::utility::vec3::{Vec3, MAX_TRIES};

verus! {

/// A density over directions.
pub trait Pdf {
    /// The density at `direction`.
    spec fn spec_value(&self, direction: Vec3) -> Scalar;

    /// The direction drawn from `seed`, and the seed left behind.
    spec fn spec_generate(&self, seed: u64) -> (Vec3, u64);

    fn value(&self, direction: Vec3) -> (r: Scalar)
        ensures
            r == self.spec_value(direction),
    ;

    fn generate(&self, rng: &mut Sampler) -> (r: Vec3)
        ensures
            (r, final(rng).seed) == self.spec_generate(old(rng).seed),
    ;
}

/// The uniform density on the unit sphere.
#[derive(Clone, Copy, Debug, PartialEq, Eq, Structural)]
pub struct SpherePdf;

/// The density of the cosine law around a normal.
#[derive(Clone, Copy, Debug, PartialEq, Eq, Structural)]
pub struct CosinePdf {
    pub uvw: Onb,
}

impl Pdf for SpherePdf {
    /// `1 / (4 pi)` everywhere.
    open spec fn spec_value(&self, direction: Vec3) -> Scalar {
        Scalar::spec_one().spec_div(Scalar::spec_from_int(4).spec_mul(Scalar::spec_pi()))
    }

    open spec fn spec_generate(&self, seed: u64) -> (Vec3, u64) {
        Vec3::spec_random_unit_vec(seed, MAX_TRIES as nat)
    }

    fn value(&self, direction: Vec3) -> (r: Scalar) {
        Scalar::one().div(Scalar::from_int(4).mul(Scalar::pi()))
    }

    fn generate(&self, rng: &mut Sampler) -> (r: Vec3) {
        Vec3::random_unit_vec(rng)
    }
}

impl CosinePdf {
    pub fn new(normal: Vec3) -> (r: CosinePdf)
        ensures
            r.uvw == Onb::spec_new(normal),
    {
        CosinePdf { uvw: Onb::new(normal) }
    }
}

impl Pdf for CosinePdf {
    /// `max(cos, 0) / pi`, for the angle between `direction` and the normal.
    open spec fn spec_value(&self, direction: Vec3) -> Scalar {
        direction.spec_unit_vec().spec_dot(self.uvw.w).spec_max(Scalar::spec_zero()).spec_div(
            Scalar::spec_pi(),
        )
    }

    open spec fn spec_generate(&self, seed: u64) -> (Vec3, u64) {
        let (p, next) = Vec3::spec_random_cosine_direction(seed);
        (self.uvw.spec_transform(p), next)
    }

    fn value(&self, direction: Vec3) -> (r: Scalar) {
        let cosine_theta: Scalar = direction.unit_vec().dot(&self.uvw.w);
        cosine_theta.max(Scalar::zero()).div(Scalar::pi())
    }

    fn generate(&self, rng: &mut Sampler) -> (r: Vec3) {
        let p: Vec3 = Vec3::random_cosine_direction(rng);
        self.uvw.transform(p)
    }
}

} // verus!
