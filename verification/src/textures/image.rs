//! A texture looked up in a grid of sRGB pixels.
use vstd::prelude::*;
use crate::utility::scalar::Scalar;
use crate::utility::interval::Interval;
use crate::utility::vec3::{Point3, Vec3};
use crate::utility::color::Color;

verus! {

/// Raw value of the exponent that turns an sRGB component into a linear one.
pub const GAMMA: i64 = 2_200_000;

/// A grid of pixels, row by row from the top, three bytes (red, green,
/// blue) per pixel. A grid without pixels stands for a missing image.
#[derive(Debug)]
pub struct ImageTexture {
    pub width: u32,
    pub height: u32,
    pub pixels: Vec<u8>,
}

/// The unit interval.
pub open spec fn spec_unit() -> Interval {
    Interval { min: Scalar::spec_zero(), max: Scalar::spec_one() }
}

/// The linear value of an sRGB byte: `(b / 255) ^ 2.2`, kept within `0 ..= 1`.
pub open spec fn spec_to_linear(b: u8) -> Scalar {
    spec_unit().spec_clamp(
        Scalar::spec_from_ratio(b as i64, 255).spec_powf(Scalar { raw: GAMMA }),
    )
}

/// The pixel column or row for a coordinate `c` in `0 ..= 1` on an axis of
/// `n` pixels: `c * (n - 1)`, rounded down.
pub open spec fn spec_pixel_index(c: Scalar, n: u32) -> int {
    (c.raw * (n - 1)) / 1_000_000
}

pub fn to_linear(b: u8) -> (r: Scalar)
    ensures
        r == spec_to_linear(b),
        0 <= r.raw <= 1_000_000,
{
    Interval::new(Scalar::zero(), Scalar::one()).clamp(
        Scalar::from_ratio(b as i64, 255).powf(Scalar { raw: GAMMA }),
    )
}

/// The product of two 32-bit numbers.
fn product(a: u32, b: u32) -> (r: u64)
    ensures
        r == a * b,
{
    assert(0 <= a * b <= 0xffff_ffff * 0xffff_ffff) by (nonlinear_arith)
        requires
            0 <= a <= 0xffff_ffff,
            0 <= b <= 0xffff_ffff,
    ;
    (a as u64) * (b as u64)
}

fn pixel_index(c: Scalar, n: u32) -> (r: u32)
    requires
        0 <= c.raw <= 1_000_000,
        n >= 1,
    ensures
        r == spec_pixel_index(c, n),
        r < n,
{
    let scaled: u64 = product(c.raw as u32, n - 1);
    assert(scaled <= 1_000_000 * (n - 1)) by (nonlinear_arith)
        requires
            scaled == c.raw * (n - 1),
            0 <= c.raw <= 1_000_000,
            n >= 1,
    ;
    (scaled / 1_000_000) as u32
}

impl ImageTexture {
    /// The grid holds three bytes for each of its `width * height` pixels.
    pub open spec fn spec_wf(self) -> bool {
        self.pixels@.len() == 3 * self.width * self.height
    }

    /// The byte of channel `c` of the pixel in column `i` of row `j`; zero
    /// beyond the grid.
    pub open spec fn spec_channel(self, i: int, j: int, c: int) -> u8 {
        let at = 3 * (j * self.width + i) + c;
        if 0 <= at < self.pixels@.len() {
            self.pixels@[at]
        } else {
            0
        }
    }

    /// The linear colour of the pixel nearest to `(u, 1 - v)`, each
    /// coordinate first brought into `0 ..= 1`; cyan where there is no image.
    pub open spec fn spec_value(self, u: Scalar, v: Scalar, p: Point3) -> Color {
        if self.height == 0 || self.width == 0 {
            Vec3 { x: Scalar::spec_zero(), y: Scalar::spec_one(), z: Scalar::spec_one() }
        } else {
            let uc = spec_unit().spec_clamp(u);
            let vc = Scalar::spec_one().spec_sub(spec_unit().spec_clamp(v));
            let i = spec_pixel_index(uc, self.width);
            let j = spec_pixel_index(vc, self.height);
            Vec3 {
                x: spec_to_linear(self.spec_channel(i, j, 0)),
                y: spec_to_linear(self.spec_channel(i, j, 1)),
                z: spec_to_linear(self.spec_channel(i, j, 2)),
            }
        }
    }

    /// A texture over `pixels`; the missing image if their number is not
    /// `3 * width * height`.
    pub fn new(width: u32, height: u32, pixels: Vec<u8>) -> (r: ImageTexture)
        ensures
            r.spec_wf(),
            pixels@.len() == 3 * width * height ==> r.width == width && r.height == height
                && r.pixels@ == pixels@,
            pixels@.len() != 3 * width * height ==> r.width == 0 && r.height == 0
                && r.pixels@.len() == 0,
    {
        let expected: u128 = 3 * (product(width, height) as u128);
        assert(expected == 3 * width * height) by (nonlinear_arith)
            requires
                expected == 3 * ((width as int) * (height as int)),
        ;
        if pixels.len() as u128 == expected {
            ImageTexture { width, height, pixels }
        } else {
            ImageTexture { width: 0, height: 0, pixels: Vec::new() }
        }
    }

    /// The texture that stands for a missing image.
    pub fn missing() -> (r: ImageTexture)
        ensures
            r.spec_wf(),
            r.width == 0,
            r.height == 0,
    {
        ImageTexture { width: 0, height: 0, pixels: Vec::new() }
    }

    fn channel(&self, i: u32, j: u32, c: u8) -> (r: u8)
        requires
            c < 3,
        ensures
            r == self.spec_channel(i as int, j as int, c as int),
    {
        let at: u128 = 3 * ((product(j, self.width) as u128) + (i as u128)) + (c as u128);
        if at < self.pixels.len() as u128 {
            self.pixels[at as usize]
        } else {
            0
        }
    }

    pub fn value(&self, u: Scalar, v: Scalar, p: Point3) -> (r: Color)
        ensures
            r == self.spec_value(u, v, p),
    {
        if self.height == 0 || self.width == 0 {
            return Vec3::new(Scalar::zero(), Scalar::one(), Scalar::one());
        }
        let unit: Interval = Interval::new(Scalar::zero(), Scalar::one());
        let uc: Scalar = unit.clamp(u);
        let vc: Scalar = Scalar::one().sub(unit.clamp(v));
        let i: u32 = pixel_index(uc, self.width);
        let j: u32 = pixel_index(vc, self.height);
        Vec3::new(
            to_linear(self.channel(i, j, 0)),
            to_linear(self.channel(i, j, 1)),
            to_linear(self.channel(i, j, 2)),
        )
    }

    /// Every colour of an image texture lies within `0 ..= 1`.
    pub proof fn lemma_value_ranged(self, u: Scalar, v: Scalar, p: Point3)
        ensures
            0 <= self.spec_value(u, v, p).x.raw <= 1_000_000,
            0 <= self.spec_value(u, v, p).y.raw <= 1_000_000,
            0 <= self.spec_value(u, v, p).z.raw <= 1_000_000,
    {
    }
}

} // verus!
