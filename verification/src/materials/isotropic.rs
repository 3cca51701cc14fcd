//! The phase function of a thin medium: scattering in every direction alike.
use vstd::prelude::*;
use crate::figures::hittable::HitRecord;
use crate::materials::material::ScatteredRay;
use crate::textures::texture::{SolidColor, Texture};
use crate::utility::color::Color;
use crate::utility::ray::Ray;
use crate::utility::scalar::Scalar;
use crate::utility::utils::Sampler;
use crate::utility::vec3::{Vec3, MAX_TRIES};

verus! {

#[derive(Debug)]
pub struct Isotropic {
    pub tex: Texture,
}

impl Isotropic {
    /// The uniform density on the sphere, `1 / (4 pi)`.
    pub open spec fn spec_scattering_pdf(self, ray: Ray, rec: HitRecord, scattered: Ray) -> Scalar {
        Scalar::spec_one().spec_div(Scalar::spec_from_int(4).spec_mul(Scalar::spec_pi()))
    }

    /// The scattered ray for the direction sample `sample`, a point of the
    /// unit sphere.
    pub open spec fn spec_scatter_with(self, ray: Ray, rec: HitRecord, sample: Vec3) -> ScatteredRay {
        let scattered = Ray::spec_with_time(rec.p, sample, ray.time);
        ScatteredRay {
            ray: scattered,
            attenuation: self.tex.spec_value(rec.u, rec.v, rec.p),
            pdf: self.spec_scattering_pdf(ray, rec, scattered),
        }
    }

    pub open spec fn spec_scatter(self, ray: Ray, rec: HitRecord, seed: u64) -> (
        Option<ScatteredRay>,
        u64,
    ) {
        let (sample, next) = Vec3::spec_random_unit_vec(seed, MAX_TRIES as nat);
        (Some(self.spec_scatter_with(ray, rec, sample)), next)
    }

    pub fn new(tex: Texture) -> (r: Isotropic)
        ensures
            r.tex == tex,
    {
        Isotropic { tex }
    }

    pub fn from_color(albedo: Color) -> (r: Isotropic)
        ensures
            r.tex == Texture::Solid(SolidColor { albedo }),
    {
        Isotropic { tex: Texture::Solid(SolidColor::new(albedo)) }
    }

    pub fn scattering_pdf(&self, ray: &Ray, rec: &HitRecord, scattered: &Ray) -> (r: Scalar)
        ensures
            r == self.spec_scattering_pdf(*ray, *rec, *scattered),
    {
        Scalar::one().div(Scalar::from_int(4).mul(Scalar::pi()))
    }

    /// Scatters along `sample`.
    pub fn scatter_with(&self, ray: &Ray, rec: &HitRecord, sample: Vec3) -> (r: ScatteredRay)
        ensures
            r == self.spec_scatter_with(*ray, *rec, sample),
    {
        let scattered: Ray = Ray::with_time(rec.p, sample, ray.time);
        ScatteredRay {
            ray: scattered,
            attenuation: self.tex.value(rec.u, rec.v, rec.p),
            pdf: self.scattering_pdf(ray, rec, &scattered),
        }
    }

    /// Always scatters, along a random unit vector.
    pub fn scatter(&self, ray: &Ray, rec: &HitRecord, rng: &mut Sampler) -> (r: Option<
        ScatteredRay,
    >)
        ensures
            (r, final(rng).seed) == self.spec_scatter(*ray, *rec, old(rng).seed),
            r is Some,
    {
        let sample: Vec3 = Vec3::random_unit_vec(rng);
        Some(self.scatter_with(ray, rec, sample))
    }
}

} // verus!
