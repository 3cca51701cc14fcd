//! The closed set of textures, and the plain colour.
use vstd::prelude::*;
use crate::utility::scalar::Scalar;
use crate::utility::vec3::{Point3, Vec3};
use crate::utility::color::Color;
use crate::textures::checker::CheckerTexture;
use crate::textures::image::ImageTexture;
use crate::textures::noise::NoiseTexture;

verus! {

/// One colour everywhere.
#[derive(Clone, Copy, Debug, PartialEq, Eq, Structural)]
pub struct SolidColor {
    pub albedo: Color,
}

impl SolidColor {
    pub open spec fn spec_value(self, u: Scalar, v: Scalar, p: Point3) -> Color {
        self.albedo
    }

    pub fn new(albedo: Color) -> (r: SolidColor)
        ensures
            r.albedo == albedo,
    {
        SolidColor { albedo }
    }

    pub fn new_rgb(red: Scalar, green: Scalar, blue: Scalar) -> (r: SolidColor)
        ensures
            r.albedo == Vec3::spec_new(red, green, blue),
    {
        SolidColor { albedo: Vec3::new(red, green, blue) }
    }

    pub fn value(&self, u: Scalar, v: Scalar, p: Point3) -> (r: Color)
        ensures
            r == self.spec_value(u, v, p),
    {
        self.albedo
    }
}

impl Default for SolidColor {
    fn default() -> (r: SolidColor)
        ensures
            r.albedo == Vec3::spec_zero(),
    {
        SolidColor { albedo: Vec3::zero() }
    }
}

/// A texture of any kind.
#[derive(Debug)]
pub enum Texture {
    Solid(SolidColor),
    Checker(CheckerTexture),
    Image(ImageTexture),
    Noise(NoiseTexture),
}

/// Every component of the colour lies in `0 ..= 1`.
pub open spec fn spec_in_unit_range(c: Color) -> bool {
    0 <= c.x.raw <= 1_000_000 && 0 <= c.y.raw <= 1_000_000 && 0 <= c.z.raw <= 1_000_000
}

impl Texture {
    /// The colour at surface coordinates `(u, v)` and position `p`.
    pub open spec fn spec_value(self, u: Scalar, v: Scalar, p: Point3) -> Color
        decreases self,
    {
        match self {
            Texture::Solid(t) => t.spec_value(u, v, p),
            Texture::Checker(t) => if t.spec_is_even(p) {
                t.even.spec_value(u, v, p)
            } else {
                t.odd.spec_value(u, v, p)
            },
            Texture::Image(t) => t.spec_value(u, v, p),
            Texture::Noise(t) => t.spec_value(u, v, p),
        }
    }

    /// The texture gives colours in `0 ..= 1` only.
    pub open spec fn spec_ranged(self) -> bool {
        forall|u: Scalar, v: Scalar, p: Point3| spec_in_unit_range(#[trigger] self.spec_value(u, v, p))
    }

    /// The colour at surface coordinates `(u, v)` and position `p`.
    pub fn value(&self, u: Scalar, v: Scalar, p: Point3) -> (r: Color)
        ensures
            r == self.spec_value(u, v, p),
        decreases self,
    {
        match self {
            Texture::Solid(t) => t.value(u, v, p),
            Texture::Checker(t) => {
                if t.is_even(&p) {
                    t.even.value(u, v, p)
                } else {
                    t.odd.value(u, v, p)
                }
            },
            Texture::Image(t) => t.value(u, v, p),
            Texture::Noise(t) => t.value(u, v, p),
        }
    }
}

/// A plain colour within `0 ..= 1` is a texture within `0 ..= 1`.
pub proof fn lemma_solid_ranged(c: Color)
    requires
        spec_in_unit_range(c),
    ensures
        Texture::Solid(SolidColor { albedo: c }).spec_ranged(),
{
}

/// A chequered texture of two textures within `0 ..= 1` is within `0 ..= 1`.
pub proof fn lemma_checker_ranged(t: CheckerTexture)
    requires
        t.even.spec_ranged(),
        t.odd.spec_ranged(),
    ensures
        Texture::Checker(t).spec_ranged(),
{
    assert forall|u: Scalar, v: Scalar, p: Point3|
        spec_in_unit_range(#[trigger] Texture::Checker(t).spec_value(u, v, p)) by {
        assert(spec_in_unit_range(t.even.spec_value(u, v, p)));
        assert(spec_in_unit_range(t.odd.spec_value(u, v, p)));
    }
}

/// Image and noise textures are within `0 ..= 1`.
pub proof fn lemma_image_noise_ranged(t: Texture)
    requires
        t is Image || t is Noise,
    ensures
        t.spec_ranged(),
{
    assert forall|u: Scalar, v: Scalar, p: Point3|
        spec_in_unit_range(#[trigger] t.spec_value(u, v, p)) by {
        match t {
            Texture::Image(i) => {
                i.lemma_value_ranged(u, v, p);
            },
            Texture::Noise(n) => {
                n.lemma_value_ranged(u, v, p);
            },
            _ => {},
        }
    }
}

} // verus!
