//! Surfaces that give off light.
use vstd::prelude::*;
use crate::figures::hittable::HitRecord;
use crate::materials::material::ScatteredRay;
use crate::textures::texture::{SolidColor, Texture};
use crate::utility::color::Color;
use crate::utility::ray::Ray;
use crate::utility::scalar::Scalar;
use crate::utility::vec3::{Point3, Vec3};

verus! {

/// A light: it shines with its texture from its front and scatters nothing.
#[derive(Debug)]
pub struct DiffuseLight {
    pub tex: Texture,
}

impl DiffuseLight {
    /// The colour `emit` (white, where `emit` all but vanishes) scaled by
    /// `3 * intensity / |emit|^2`, so that white keeps its components at
    /// `intensity`.
    pub open spec fn spec_light(emit: Color, intensity: Scalar) -> Color {
        let base = if emit.spec_near_zero() {
            Vec3 { x: Scalar::spec_one(), y: Scalar::spec_one(), z: Scalar::spec_one() }
        } else {
            emit
        };
        base.spec_scale(
            intensity.spec_mul(Scalar::spec_from_int(3).spec_div(base.spec_len_square())),
        )
    }

    /// The texture's colour towards the front, black towards the back.
    pub open spec fn spec_emitted(
        self,
        ray: Ray,
        rec: HitRecord,
        u: Scalar,
        v: Scalar,
        p: Point3,
    ) -> Color {
        if rec.front_face {
            self.tex.spec_value(u, v, p)
        } else {
            Vec3::spec_zero()
        }
    }

    pub fn new(tex: Texture) -> (r: DiffuseLight)
        ensures
            r.tex == tex,
    {
        DiffuseLight { tex }
    }

    pub fn from_color(emit: Color, intensity: Scalar) -> (r: DiffuseLight)
        ensures
            r.tex == Texture::Solid(
                SolidColor { albedo: DiffuseLight::spec_light(emit, intensity) },
            ),
    {
        let base: Color = if emit.near_zero() {
            Vec3::new(Scalar::one(), Scalar::one(), Scalar::one())
        } else {
            emit
        };
        let light: Color = base.scale(
            intensity.mul(Scalar::from_int(3).div(base.len_square())),
        );
        DiffuseLight { tex: Texture::Solid(SolidColor::new(light)) }
    }

    /// A light scatters nothing.
    pub fn scatter(&self, ray: &Ray, rec: &HitRecord) -> (r: Option<ScatteredRay>)
        ensures
            r is None,
    {
        None
    }

    pub fn emitted(&self, ray: &Ray, rec: &HitRecord, u: Scalar, v: Scalar, p: Point3) -> (r:
        Color)
        ensures
            r == self.spec_emitted(*ray, *rec, u, v, p),
    {
        if !rec.front_face {
            return Vec3::zero();
        }
        self.tex.value(u, v, p)
    }
}

} // verus!
