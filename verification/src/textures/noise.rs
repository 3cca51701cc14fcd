//! A marbled texture from turbulent gradient noise.
use vstd::prelude::*;
use crate::utility::scalar::Scalar;
use crate::utility::vec3::{Point3, Vec3};
use crate::utility::color::Color;
use crate::utility::perlin::{PerlinNoise, spec_tables};
use crate::utility::utils::Sampler;

verus! {

/// Number of octaves of noise in the marbling.
pub const OCTAVES: i32 = 7;

#[derive(Debug)]
pub struct NoiseTexture {
    pub noise: PerlinNoise,
    pub scale: Scalar,
}

impl NoiseTexture {
    /// Grey of intensity `(1 + sin(scale * z + 10 * turbulence(p))) / 2`.
    pub open spec fn spec_value(self, u: Scalar, v: Scalar, p: Point3) -> Color {
        let phase = self.scale.spec_mul(p.z).spec_add(
            Scalar::spec_from_int(10).spec_mul(self.noise.spec_turbulence(p, OCTAVES)),
        );
        let half = Scalar::spec_from_ratio(1, 2);
        Vec3 { x: half, y: half, z: half }.spec_scale(Scalar::spec_one().spec_add(phase.spec_sin()))
    }

    /// A texture of frequency `scale` over noise drawn from `rng`.
    pub fn new(scale: Scalar, rng: &mut Sampler) -> (r: NoiseTexture)
        ensures
            r.scale == scale,
            r.noise.spec_wf(),
            (r.noise.randvec@, r.noise.perm_x@, r.noise.perm_y@, r.noise.perm_z@, final(rng).seed)
                == spec_tables(old(rng).seed),
    {
        NoiseTexture { scale, noise: PerlinNoise::new(rng) }
    }

    pub fn value(&self, u: Scalar, v: Scalar, p: Point3) -> (r: Color)
        ensures
            r == self.spec_value(u, v, p),
    {
        let phase: Scalar = self.scale.mul(p.z).add(
            Scalar::from_int(10).mul(self.noise.turbulence(p, OCTAVES)),
        );
        let half: Scalar = Scalar::from_ratio(1, 2);
        Vec3::new(half, half, half).scale(Scalar::one().add(phase.sin()))
    }

    /// Every colour of a noise texture lies within `0 ..= 1`.
    pub proof fn lemma_value_ranged(self, u: Scalar, v: Scalar, p: Point3)
        ensures
            0 <= self.spec_value(u, v, p).x.raw <= 1_000_000,
            0 <= self.spec_value(u, v, p).y.raw <= 1_000_000,
            0 <= self.spec_value(u, v, p).z.raw <= 1_000_000,
    {
        let phase = self.scale.spec_mul(p.z).spec_add(
            Scalar::spec_from_int(10).spec_mul(self.noise.spec_turbulence(p, OCTAVES)),
        );
        let s = phase.spec_sin();
        assert(-1_000_000 <= s.raw <= 1_000_000);
    }
}

} // verus!
