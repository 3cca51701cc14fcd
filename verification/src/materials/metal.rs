//! Mirrors, polished or brushed.
use vstd::prelude::*;
use crate::figures::hittable::HitRecord;
use crate::materials::material::ScatteredRay;
use crate::utility::color::Color;
use crate::utility::interval::Interval;
use crate::utility::ray::Ray;
use crate::utility::scalar::Scalar;
use crate::utility::utils::Sampler;
use crate::utility::vec3::{Vec3, MAX_TRIES};

verus! {

/// A mirror of colour `albedo` whose reflections are blurred by `fuzz`.
#[derive(Clone, Copy, Debug, PartialEq, Eq, Structural)]
pub struct Metal {
    pub albedo: Color,
    pub fuzz: Scalar,
}

impl Metal {
    /// `fuzz` if it lies in `0 ..= 1`, one otherwise.
    pub open spec fn spec_clamp_fuzz(fuzz: Scalar) -> Scalar {
        if 0 <= fuzz.raw <= 1_000_000 {
            fuzz
        } else {
            Scalar::spec_one()
        }
    }

    /// The mirror direction at unit length, moved by `fuzz * sample`.
    pub open spec fn spec_direction(self, ray: Ray, rec: HitRecord, sample: Vec3) -> Vec3 {
        ray.dir.spec_reflect(rec.normal).spec_unit_vec().spec_add(sample.spec_scale(self.fuzz))
    }

    /// The scattered ray for the direction sample `sample`, a point of the
    /// unit sphere; none where the blurred direction enters the surface.
    pub open spec fn spec_scatter_with(self, ray: Ray, rec: HitRecord, sample: Vec3) -> Option<
        ScatteredRay,
    > {
        let direction = self.spec_direction(ray, rec, sample);
        if direction.spec_dot(rec.normal).raw > 0 {
            Some(
                ScatteredRay {
                    ray: Ray::spec_with_time(rec.p, direction, ray.time),
                    attenuation: self.albedo,
                    pdf: Scalar::spec_one(),
                },
            )
        } else {
            None
        }
    }

    pub open spec fn spec_scatter(self, ray: Ray, rec: HitRecord, seed: u64) -> (
        Option<ScatteredRay>,
        u64,
    ) {
        let (sample, next) = Vec3::spec_random_unit_vec(seed, MAX_TRIES as nat);
        (self.spec_scatter_with(ray, rec, sample), next)
    }

    /// A metal; a `fuzz` outside `0 ..= 1` is replaced by one.
    pub fn new(albedo: Color, fuzz: Scalar) -> (r: Metal)
        ensures
            r.albedo == albedo,
            r.fuzz == Metal::spec_clamp_fuzz(fuzz),
            0 <= r.fuzz.raw <= 1_000_000,
            !(0 <= fuzz.raw <= 1_000_000) ==> r.fuzz == Scalar::spec_one(),
    {
        let fuzz: Scalar = if Interval::new(Scalar::zero(), Scalar::one()).contains(fuzz) {
            fuzz
        } else {
            Scalar::one()
        };
        Metal { albedo, fuzz }
    }

    /// Reflects, blurred by `fuzz * sample`.
    pub fn scatter_with(&self, ray: &Ray, rec: &HitRecord, sample: Vec3) -> (r: Option<
        ScatteredRay,
    >)
        ensures
            r == self.spec_scatter_with(*ray, *rec, sample),
    {
        let reflected: Vec3 = ray.dir.reflect(rec.normal);
        let direction: Vec3 = reflected.unit_vec().add(sample.scale(self.fuzz));
        if direction.dot(&rec.normal).raw > 0 {
            Some(
                ScatteredRay {
                    ray: Ray::with_time(rec.p, direction, ray.time),
                    attenuation: self.albedo,
                    pdf: Scalar::one(),
                },
            )
        } else {
            None
        }
    }

    pub fn scatter(&self, ray: &Ray, rec: &HitRecord, rng: &mut Sampler) -> (r: Option<
        ScatteredRay,
    >)
        ensures
            (r, final(rng).seed) == self.spec_scatter(*ray, *rec, old(rng).seed),
    {
        let sample: Vec3 = Vec3::random_unit_vec(rng);
        self.scatter_with(ray, rec, sample)
    }
}

} // verus!
