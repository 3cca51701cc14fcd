//! The closed set of materials.
use vstd::prelude::*;
use crate::figures::hittable::HitRecord;
use crate::materials::dielectric::Dielectric;
use crate::materials::emissive::DiffuseLight;
use crate::materials::isotropic::Isotropic;
use crate::materials::lambertian::Lambertian;
use crate::materials::metal::Metal;
use crate::utility::color::Color;
use crate::utility::ray::Ray;
use crate::utility::scalar::Scalar;
use crate::utility::utils::Sampler;
use crate::utility::vec3::{Point3, Vec3};

verus! {

/// A ray leaving a surface, the share of light that it carries on, and the
/// density with which its direction was drawn.
#[derive(Clone, Copy, Debug, PartialEq, Eq, Structural)]
pub struct ScatteredRay {
    pub ray: Ray,
    pub attenuation: Color,
    pub pdf: Scalar,
}

/// A material of any kind.
#[derive(Debug)]
pub enum Material {
    Lambertian(Lambertian),
    Metal(Metal),
    Dielectric(Dielectric),
    Isotropic(Isotropic),
    DiffuseLight(DiffuseLight),
}

/// The material of a record that no surface has filled in: black and diffuse.
pub fn default_material() -> (r: Lambertian)
    ensures
        r == Lambertian::spec_new(Vec3::spec_zero()),
{
    Lambertian::new(Vec3::zero())
}

impl Material {
    /// The scattered ray, if the material scatters `ray` at `rec` with the
    /// draws that start from `seed`; and the seed left behind.
    pub open spec fn spec_scatter(self, ray: Ray, rec: HitRecord, seed: u64) -> (
        Option<ScatteredRay>,
        u64,
    ) {
        match self {
            Material::Lambertian(m) => m.spec_scatter(ray, rec, seed),
            Material::Metal(m) => m.spec_scatter(ray, rec, seed),
            Material::Dielectric(m) => m.spec_scatter(ray, rec, seed),
            Material::Isotropic(m) => m.spec_scatter(ray, rec, seed),
            Material::DiffuseLight(m) => (None, seed),
        }
    }

    /// The light given off at `rec`: none but from a light.
    pub open spec fn spec_emitted(
        self,
        ray: Ray,
        rec: HitRecord,
        u: Scalar,
        v: Scalar,
        p: Point3,
    ) -> Color {
        match self {
            Material::DiffuseLight(m) => m.spec_emitted(ray, rec, u, v, p),
            _ => Vec3::spec_zero(),
        }
    }

    /// The density with which the material scatters `ray` into `scattered`.
    pub open spec fn spec_scattering_pdf(self, ray: Ray, rec: HitRecord, scattered: Ray) -> Scalar {
        match self {
            Material::Lambertian(m) => m.spec_scattering_pdf(ray, rec, scattered),
            Material::Isotropic(m) => m.spec_scattering_pdf(ray, rec, scattered),
            _ => Scalar::spec_one(),
        }
    }

    pub fn scatter(&self, ray: &Ray, rec: &HitRecord, rng: &mut Sampler) -> (r: Option<
        ScatteredRay,
    >)
        ensures
            (r, final(rng).seed) == self.spec_scatter(*ray, *rec, old(rng).seed),
    {
        match self {
            Material::Lambertian(m) => m.scatter(ray, rec, rng),
            Material::Metal(m) => m.scatter(ray, rec, rng),
            Material::Dielectric(m) => m.scatter(ray, rec, rng),
            Material::Isotropic(m) => m.scatter(ray, rec, rng),
            Material::DiffuseLight(m) => m.scatter(ray, rec),
        }
    }

    pub fn emitted(&self, ray: &Ray, rec: &HitRecord, u: Scalar, v: Scalar, p: Point3) -> (r:
        Color)
        ensures
            r == self.spec_emitted(*ray, *rec, u, v, p),
    {
        match self {
            Material::DiffuseLight(m) => m.emitted(ray, rec, u, v, p),
            _ => Vec3::zero(),
        }
    }

    pub fn scattering_pdf(&self, ray: &Ray, rec: &HitRecord, scattered: &Ray) -> (r: Scalar)
        ensures
            r == self.spec_scattering_pdf(*ray, *rec, *scattered),
    {
        match self {
            Material::Lambertian(m) => m.scattering_pdf(ray, rec, scattered),
            Material::Isotropic(m) => m.scattering_pdf(ray, rec, scattered),
            _ => Scalar::one(),
        }
    }
}

} // verus!
