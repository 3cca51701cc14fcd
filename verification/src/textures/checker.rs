//! A three-dimensional chequered pattern of two textures.
use vstd::prelude::*;
use crate::utility::scalar::Scalar;
use crate::utility::vec3::Point3;
use crate::utility::color::Color;
use crate::textures::texture::{SolidColor, Texture};

verus! {

/// Cubes of side `1 / inv_scale`, alternately of texture `even` and `odd`.
#[derive(Debug)]
pub struct CheckerTexture {
    pub inv_scale: Scalar,
    pub even: Box<Texture>,
    pub odd: Box<Texture>,
}

impl CheckerTexture {
    /// The cube that holds `p` is an even one: the floors of its scaled
    /// coordinates add up to an even number.
    pub open spec fn spec_is_even(self, p: Point3) -> bool {
        (self.inv_scale.spec_mul(p.x).spec_floor() + self.inv_scale.spec_mul(p.y).spec_floor()
            + self.inv_scale.spec_mul(p.z).spec_floor()) % 2 == 0
    }

    pub fn new(scale: Scalar, even: Texture, odd: Texture) -> (r: CheckerTexture)
        ensures
            r.inv_scale == Scalar::spec_one().spec_div(scale),
            *r.even == even,
            *r.odd == odd,
    {
        CheckerTexture {
            inv_scale: Scalar::one().div(scale),
            even: Box::new(even),
            odd: Box::new(odd),
        }
    }

    pub fn from_colors(scale: Scalar, c1: Color, c2: Color) -> (r: CheckerTexture)
        ensures
            r.inv_scale == Scalar::spec_one().spec_div(scale),
            *r.even == Texture::Solid(SolidColor { albedo: c1 }),
            *r.odd == Texture::Solid(SolidColor { albedo: c2 }),
    {
        CheckerTexture::new(
            scale,
            Texture::Solid(SolidColor::new(c1)),
            Texture::Solid(SolidColor::new(c2)),
        )
    }

    /// Whether `p` lies in an even cube.
    pub fn is_even(&self, p: &Point3) -> (r: bool)
        ensures
            r == self.spec_is_even(*p),
    {
        let x: i64 = self.inv_scale.mul(p.x).floor();
        let y: i64 = self.inv_scale.mul(p.y).floor();
        let z: i64 = self.inv_scale.mul(p.z).floor();
        (x + y + z) % 2 == 0
    }
}

} // verus!
