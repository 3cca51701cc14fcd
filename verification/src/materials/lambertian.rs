//! Diffuse surfaces.
use vstd::prelude::*;
use crate::figures::hittable::HitRecord;
use crate::materials::material::ScatteredRay;
use crate::textures::texture::{SolidColor, Texture, spec_in_unit_range};
use crate::utility::color::Color;
use crate::utility::ray::Ray;
use crate::utility::scalar::Scalar;
use crate::utility::utils::Sampler;
use crate::utility::vec3::{Vec3, MAX_TRIES};

verus! {

/// A surface that scatters about its normal and tints by its texture.
#[derive(Debug)]
pub struct Lambertian {
    pub tex: Texture,
}

impl Lambertian {
    pub open spec fn spec_new(albedo: Color) -> Lambertian {
        Lambertian { tex: Texture::Solid(SolidColor { albedo }) }
    }

    /// The direction `normal + sample`, or the normal alone where that sum
    /// all but vanishes.
    pub open spec fn spec_direction(rec: HitRecord, sample: Vec3) -> Vec3 {
        let direction = rec.normal.spec_add(sample);
        if direction.spec_near_zero() {
            rec.normal
        } else {
            direction
        }
    }

    /// The density of the cosine law: `max(cos, 0) / pi`, for the angle
    /// between the normal and the scattered ray.
    pub open spec fn spec_scattering_pdf(self, ray: Ray, rec: HitRecord, scattered: Ray) -> Scalar {
        rec.normal.spec_dot(scattered.dir.spec_unit_vec()).spec_max(Scalar::spec_zero()).spec_div(
            Scalar::spec_pi(),
        )
    }

    /// The scattered ray for the direction sample `sample`, a point of the
    /// unit sphere.
    pub open spec fn spec_scatter_with(self, ray: Ray, rec: HitRecord, sample: Vec3) -> ScatteredRay {
        let scattered = Ray::spec_with_time(rec.p, Lambertian::spec_direction(rec, sample), ray.time);
        ScatteredRay {
            ray: scattered,
            attenuation: self.tex.spec_value(rec.u, rec.v, rec.p),
            pdf: self.spec_scattering_pdf(ray, rec, scattered),
        }
    }

    pub open spec fn spec_scatter(self, ray: Ray, rec: HitRecord, seed: u64) -> (
        Option<ScatteredRay>,
        u64,
    ) {
        let (sample, next) = Vec3::spec_random_unit_vec(seed, MAX_TRIES as nat);
        (Some(self.spec_scatter_with(ray, rec, sample)), next)
    }

    /// A surface of one colour.
    pub fn new(albedo: Color) -> (r: Lambertian)
        ensures
            r == Lambertian::spec_new(albedo),
    {
        Lambertian { tex: Texture::Solid(SolidColor::new(albedo)) }
    }

    pub fn from_texture(tex: Texture) -> (r: Lambertian)
        ensures
            r.tex == tex,
    {
        Lambertian { tex }
    }

    pub fn scattering_pdf(&self, ray: &Ray, rec: &HitRecord, scattered: &Ray) -> (r: Scalar)
        ensures
            r == self.spec_scattering_pdf(*ray, *rec, *scattered),
    {
        rec.normal.dot(&scattered.dir.unit_vec()).max(Scalar::zero()).div(Scalar::pi())
    }

    /// Scatters along `normal + sample`.
    pub fn scatter_with(&self, ray: &Ray, rec: &HitRecord, sample: Vec3) -> (r: ScatteredRay)
        ensures
            r == self.spec_scatter_with(*ray, *rec, sample),
    {
        let mut direction: Vec3 = rec.normal.add(sample);
        if direction.near_zero() {
            direction = rec.normal;
        }
        let scattered: Ray = Ray::with_time(rec.p, direction, ray.time);
        ScatteredRay {
            ray: scattered,
            attenuation: self.tex.value(rec.u, rec.v, rec.p),
            pdf: self.scattering_pdf(ray, rec, &scattered),
        }
    }

    /// Always scatters, along the normal plus a random unit vector.
    pub fn scatter(&self, ray: &Ray, rec: &HitRecord, rng: &mut Sampler) -> (r: Option<
        ScatteredRay,
    >)
        ensures
            (r, final(rng).seed) == self.spec_scatter(*ray, *rec, old(rng).seed),
            r is Some,
    {
        let sample: Vec3 = Vec3::random_unit_vec(rng);
        Some(self.scatter_with(ray, rec, sample))
    }
}

impl Default for Lambertian {
    fn default() -> (r: Lambertian)
        ensures
            r == Lambertian::spec_new(Vec3::spec_zero()),
    {
        Lambertian::new(Vec3::zero())
    }
}

/// A diffuse surface never brightens: with a texture within `0 ..= 1`, the
/// attenuation of every scattered ray lies within `0 ..= 1`.
pub proof fn lemma_attenuation_ranged(m: Lambertian, ray: Ray, rec: HitRecord, seed: u64)
    requires
        m.tex.spec_ranged(),
    ensures
        m.spec_scatter(ray, rec, seed).0 is Some,
        spec_in_unit_range(m.spec_scatter(ray, rec, seed).0->0.attenuation),
{
    assert(spec_in_unit_range(m.tex.spec_value(rec.u, rec.v, rec.p)));
}

} // verus!
