//! Clear materials that refract: glass, water, air in glass.
use vstd::prelude::*;
use crate::figures::hittable::HitRecord;
use crate::materials::material::ScatteredRay;
use crate::utility::ray::Ray;
use crate::utility::scalar::Scalar;
use crate::utility::utils::{Sampler, spec_uniform, rng_successor};
use crate::utility::vec3::Vec3;

verus! {

/// A clear material with the given index of refraction, relative to what
/// surrounds it.
#[derive(Clone, Copy, Debug, PartialEq, Eq, Structural)]
pub struct Dielectric {
    pub refraction_index: Scalar,
}

/// Schlick's approximation of the share of light that a clear surface
/// reflects: `r0 + (1 - r0) (1 - cosine)^5`, with `r0 = ((1 - ri) / (1 + ri))^2`.
pub open spec fn spec_reflectance(cosine: Scalar, ri: Scalar) -> Scalar {
    let one = Scalar::spec_one();
    let r0 = one.spec_sub(ri).spec_div(one.spec_add(ri)).spec_square();
    let c = one.spec_sub(cosine);
    r0.spec_add(one.spec_sub(r0).spec_mul(c.spec_square().spec_square().spec_mul(c)))
}

pub fn reflectance(cosine: Scalar, ri: Scalar) -> (r: Scalar)
    ensures
        r == spec_reflectance(cosine, ri),
{
    let one: Scalar = Scalar::one();
    let r0: Scalar = one.sub(ri).div(one.add(ri)).square();
    let c: Scalar = one.sub(cosine);
    r0.add(one.sub(r0).mul(c.square().square().mul(c)))
}

impl Dielectric {
    /// The ratio of the index on the ray's side to the index beyond the surface.
    pub open spec fn spec_ratio(self, rec: HitRecord) -> Scalar {
        if rec.front_face {
            Scalar::spec_one().spec_div(self.refraction_index)
        } else {
            self.refraction_index
        }
    }

    /// The cosine of the angle of incidence, at most one.
    pub open spec fn spec_cos_theta(ray: Ray, rec: HitRecord) -> Scalar {
        ray.dir.spec_unit_vec().spec_neg().spec_dot(rec.normal).spec_min(Scalar::spec_one())
    }

    /// The sine of the angle of incidence.
    pub open spec fn spec_sin_theta(ray: Ray, rec: HitRecord) -> Scalar {
        Scalar::spec_one().spec_sub(Dielectric::spec_cos_theta(ray, rec).spec_square()).spec_sqrt()
    }

    /// Snell's law has no solution: the ratio of indices times the sine of
    /// the angle of incidence is above one.
    pub open spec fn spec_cannot_refract(self, ray: Ray, rec: HitRecord) -> bool {
        self.spec_ratio(rec).spec_mul(Dielectric::spec_sin_theta(ray, rec)).raw > 1_000_000
    }

    /// The ray reflects rather than refracts: Snell's law has no solution,
    /// or the reflected share is above the uniform draw `draw`.
    pub open spec fn spec_reflects(self, ray: Ray, rec: HitRecord, draw: Scalar) -> bool {
        self.spec_cannot_refract(ray, rec) || spec_reflectance(
            Dielectric::spec_cos_theta(ray, rec),
            self.spec_ratio(rec),
        ).raw > draw.raw
    }

    /// The scattered ray for the uniform draw `draw`: reflected or
    /// refracted, never dimmed.
    pub open spec fn spec_scatter_with(self, ray: Ray, rec: HitRecord, draw: Scalar) -> ScatteredRay {
        let unit_direction = ray.dir.spec_unit_vec();
        let direction = if self.spec_reflects(ray, rec, draw) {
            unit_direction.spec_reflect(rec.normal)
        } else {
            unit_direction.spec_refract(rec.normal, self.spec_ratio(rec))
        };
        ScatteredRay {
            ray: Ray::spec_with_time(rec.p, direction, ray.time),
            attenuation: Vec3 {
                x: Scalar::spec_one(),
                y: Scalar::spec_one(),
                z: Scalar::spec_one(),
            },
            pdf: Scalar::spec_one(),
        }
    }

    pub open spec fn spec_scatter(self, ray: Ray, rec: HitRecord, seed: u64) -> (
        Option<ScatteredRay>,
        u64,
    ) {
        (Some(self.spec_scatter_with(ray, rec, spec_uniform(seed))), rng_successor(seed))
    }

    pub fn new(refraction_index: Scalar) -> (r: Dielectric)
        ensures
            r.refraction_index == refraction_index,
    {
        Dielectric { refraction_index }
    }

    /// Reflects or refracts, as `draw` decides where both can happen.
    pub fn scatter_with(&self, ray: &Ray, rec: &HitRecord, draw: Scalar) -> (r: ScatteredRay)
        ensures
            r == self.spec_scatter_with(*ray, *rec, draw),
            self.spec_cannot_refract(*ray, *rec) ==> r.ray.dir == ray.dir.spec_unit_vec().spec_reflect(
                rec.normal,
            ),
    {
        let ri: Scalar = if rec.front_face {
            Scalar::one().div(self.refraction_index)
        } else {
            self.refraction_index
        };
        let unit_direction: Vec3 = ray.dir.unit_vec();
        let cos_theta: Scalar = unit_direction.neg().dot(&rec.normal).min(Scalar::one());
        let sin_theta: Scalar = Scalar::one().sub(cos_theta.square()).sqrt();
        let cannot_refract: bool = ri.mul(sin_theta).raw > 1_000_000;
        let direction: Vec3 = if cannot_refract || reflectance(cos_theta, ri).raw > draw.raw {
            unit_direction.reflect(rec.normal)
        } else {
            unit_direction.refract(rec.normal, ri)
        };
        ScatteredRay {
            ray: Ray::with_time(rec.p, direction, ray.time),
            attenuation: Vec3::new(Scalar::one(), Scalar::one(), Scalar::one()),
            pdf: Scalar::one(),
        }
    }

    /// Always scatters.
    pub fn scatter(&self, ray: &Ray, rec: &HitRecord, rng: &mut Sampler) -> (r: Option<
        ScatteredRay,
    >)
        ensures
            (r, final(rng).seed) == self.spec_scatter(*ray, *rec, old(rng).seed),
            r is Some,
    {
        let draw: Scalar = rng.uniform();
        Some(self.scatter_with(ray, rec, draw))
    }
}

/// Total internal reflection: where Snell's law has no solution the ray is
/// reflected, whatever is drawn.
pub proof fn lemma_total_internal_reflection(m: Dielectric, ray: Ray, rec: HitRecord, seed: u64)
    requires
        m.spec_cannot_refract(ray, rec),
    ensures
        m.spec_scatter(ray, rec, seed).0 is Some,
        m.spec_scatter(ray, rec, seed).0->0.ray.dir == ray.dir.spec_unit_vec().spec_reflect(
            rec.normal,
        ),
        forall|draw: Scalar| #[trigger]
            m.spec_scatter_with(ray, rec, draw).ray.dir == ray.dir.spec_unit_vec().spec_reflect(
                rec.normal,
            ),
{
}

} // verus!
