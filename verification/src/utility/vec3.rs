//! Three-component vectors: points, directions and colours.
use vstd::prelude::*;
use crate::utility::scalar::Scalar;
use crate::utility::utils::{Sampler, rng_successor, spec_random_scalar, spec_uniform, random_scalar};

verus! {

#[derive(Clone, Copy, Debug, PartialEq, Eq, Structural)]
pub struct Vec3 {
    pub x: Scalar,
    pub y: Scalar,
    pub z: Scalar,
}

pub type Point3 = Vec3;

/// How often a rejection sampler draws before it settles for a fixed direction.
pub const MAX_TRIES: u32 = 64;

/// Squared length below which a drawn point is too short to normalise.
pub const MIN_LEN_SQUARE: i64 = 100;

/// Magnitude below which a component counts as zero.
pub const NEAR_ZERO: i64 = 100;

impl Vec3 {
    pub open spec fn spec_new(x: Scalar, y: Scalar, z: Scalar) -> Vec3 {
        Vec3 { x, y, z }
    }

    pub open spec fn spec_zero() -> Vec3 {
        Vec3 { x: Scalar::spec_zero(), y: Scalar::spec_zero(), z: Scalar::spec_zero() }
    }

    pub open spec fn spec_index(self, i: int) -> Scalar {
        if i == 0 {
            self.x
        } else if i == 1 {
            self.y
        } else {
            self.z
        }
    }

    pub open spec fn spec_add(self, rhs: Vec3) -> Vec3 {
        Vec3 { x: self.x.spec_add(rhs.x), y: self.y.spec_add(rhs.y), z: self.z.spec_add(rhs.z) }
    }

    pub open spec fn spec_sub(self, rhs: Vec3) -> Vec3 {
        Vec3 { x: self.x.spec_sub(rhs.x), y: self.y.spec_sub(rhs.y), z: self.z.spec_sub(rhs.z) }
    }

    pub open spec fn spec_neg(self) -> Vec3 {
        Vec3 { x: self.x.spec_neg(), y: self.y.spec_neg(), z: self.z.spec_neg() }
    }

    /// The component-wise product.
    pub open spec fn spec_mul(self, rhs: Vec3) -> Vec3 {
        Vec3 { x: self.x.spec_mul(rhs.x), y: self.y.spec_mul(rhs.y), z: self.z.spec_mul(rhs.z) }
    }

    pub open spec fn spec_scale(self, k: Scalar) -> Vec3 {
        Vec3 { x: self.x.spec_mul(k), y: self.y.spec_mul(k), z: self.z.spec_mul(k) }
    }

    pub open spec fn spec_div(self, k: Scalar) -> Vec3 {
        Vec3 { x: self.x.spec_div(k), y: self.y.spec_div(k), z: self.z.spec_div(k) }
    }

    /// The component-wise quotient.
    pub open spec fn spec_div_each(self, rhs: Vec3) -> Vec3 {
        Vec3 { x: self.x.spec_div(rhs.x), y: self.y.spec_div(rhs.y), z: self.z.spec_div(rhs.z) }
    }

    pub open spec fn spec_dot(self, rhs: Vec3) -> Scalar {
        self.x.spec_mul(rhs.x).spec_add(self.y.spec_mul(rhs.y)).spec_add(self.z.spec_mul(rhs.z))
    }

    pub open spec fn spec_cross(self, rhs: Vec3) -> Vec3 {
        Vec3 {
            x: self.y.spec_mul(rhs.z).spec_sub(self.z.spec_mul(rhs.y)),
            y: self.z.spec_mul(rhs.x).spec_sub(self.x.spec_mul(rhs.z)),
            z: self.x.spec_mul(rhs.y).spec_sub(self.y.spec_mul(rhs.x)),
        }
    }

    pub open spec fn spec_len_square(self) -> Scalar {
        self.spec_dot(self)
    }

    pub open spec fn spec_len(self) -> Scalar {
        self.spec_len_square().spec_sqrt()
    }

    pub open spec fn spec_near_zero(self) -> bool {
        self.x.spec_abs().raw < NEAR_ZERO && self.y.spec_abs().raw < NEAR_ZERO
            && self.z.spec_abs().raw < NEAR_ZERO
    }

    /// The vector divided by its length; the zero vector stays zero.
    pub open spec fn spec_unit_vec(self) -> Vec3 {
        self.spec_div(self.spec_len())
    }

    /// The mirror image of `self` about the plane with normal `normal`.
    pub open spec fn spec_reflect(self, normal: Vec3) -> Vec3 {
        self.spec_sub(normal.spec_scale(Scalar::spec_from_int(2).spec_mul(self.spec_dot(normal))))
    }

    /// The direction of `self` bent by Snell's law at a surface with normal
    /// `normal`, for the ratio `etai_over_etat` of refraction indices.
    pub open spec fn spec_refract(self, normal: Vec3, etai_over_etat: Scalar) -> Vec3 {
        let cos_theta = self.spec_neg().spec_dot(normal).spec_min(Scalar::spec_one()).spec_max(
            Scalar::spec_one().spec_neg(),
        );
        let r_out_perp = self.spec_add(normal.spec_scale(cos_theta)).spec_scale(etai_over_etat);
        let r_out_parallel = normal.spec_scale(
            Scalar::spec_one().spec_sub(r_out_perp.spec_len_square()).spec_abs().spec_sqrt().spec_neg(),
        );
        r_out_perp.spec_add(r_out_parallel)
    }

    /// Three uniform draws from `0 .. 1`, and the seed after them.
    pub open spec fn spec_random(seed: u64) -> (Vec3, u64) {
        Vec3::spec_random_bounded(seed, Scalar::spec_zero(), Scalar::spec_one())
    }

    /// Three uniform draws from `min .. max`, and the seed after them.
    pub open spec fn spec_random_bounded(seed: u64, min: Scalar, max: Scalar) -> (Vec3, u64) {
        let s1 = rng_successor(seed);
        let s2 = rng_successor(s1);
        (
            Vec3 {
                x: spec_random_scalar(seed, min, max),
                y: spec_random_scalar(s1, min, max),
                z: spec_random_scalar(s2, min, max),
            },
            rng_successor(s2),
        )
    }

    /// Whether a point drawn from the cube may be normalised onto the sphere.
    pub open spec fn spec_accepts(self) -> bool {
        MIN_LEN_SQUARE < self.spec_len_square().raw <= 1_000_000
    }

    /// Rejection sampling of a direction: the first of at most `tries` draws
    /// from the cube `-1 .. 1` that lies in the unit ball and is not too
    /// short, normalised; the x axis if none does.
    pub open spec fn spec_random_unit_vec(seed: u64, tries: nat) -> (Vec3, u64)
        decreases tries,
    {
        if tries == 0 {
            (Vec3 { x: Scalar::spec_one(), y: Scalar::spec_zero(), z: Scalar::spec_zero() }, seed)
        } else {
            let (p, next) = Vec3::spec_random_bounded(
                seed,
                Scalar::spec_one().spec_neg(),
                Scalar::spec_one(),
            );
            if p.spec_accepts() {
                (p.spec_div(p.spec_len_square().spec_sqrt()), next)
            } else {
                Vec3::spec_random_unit_vec(next, (tries - 1) as nat)
            }
        }
    }

    /// A random direction on the side of `normal`.
    pub open spec fn spec_random_on_hemisphere(seed: u64, normal: Vec3) -> (Vec3, u64) {
        let (v, next) = Vec3::spec_random_unit_vec(seed, MAX_TRIES as nat);
        if v.spec_dot(normal).raw > 0 {
            (v, next)
        } else {
            (v.spec_neg(), next)
        }
    }

    /// Rejection sampling of a point of the unit disk in the plane `z = 0`;
    /// the centre if `tries` draws all miss.
    pub open spec fn spec_random_in_unit_disk(seed: u64, tries: nat) -> (Vec3, u64)
        decreases tries,
    {
        if tries == 0 {
            (Vec3::spec_zero(), seed)
        } else {
            let s1 = rng_successor(seed);
            let p = Vec3 {
                x: spec_random_scalar(seed, Scalar::spec_one().spec_neg(), Scalar::spec_one()),
                y: spec_random_scalar(s1, Scalar::spec_one().spec_neg(), Scalar::spec_one()),
                z: Scalar::spec_zero(),
            };
            if p.spec_len_square().raw < 1_000_000 {
                (p, rng_successor(s1))
            } else {
                Vec3::spec_random_in_unit_disk(rng_successor(s1), (tries - 1) as nat)
            }
        }
    }

    /// A direction around the z axis drawn by the cosine law, from two
    /// uniform draws `r1` and `r2`: at the angle `2 pi r1` around the axis,
    /// `sqrt(r2)` away from it.
    pub open spec fn spec_random_cosine_direction(seed: u64) -> (Vec3, u64) {
        let r1 = spec_uniform(seed);
        let s1 = rng_successor(seed);
        let r2 = spec_uniform(s1);
        let phi = Scalar::spec_from_int(2).spec_mul(Scalar::spec_pi()).spec_mul(r1);
        (
            Vec3 {
                x: phi.spec_cos().spec_mul(r2.spec_sqrt()),
                y: phi.spec_sin().spec_mul(r2.spec_sqrt()),
                z: Scalar::spec_one().spec_sub(r2).spec_sqrt(),
            },
            rng_successor(s1),
        )
    }

    /// The squared length of a vector is not negative.
    pub proof fn lemma_len_square_nonnegative(self)
        ensures
            self.spec_len_square().raw >= 0,
    {
        self.x.lemma_square_nonnegative();
        self.y.lemma_square_nonnegative();
        self.z.lemma_square_nonnegative();
    }

    pub fn new(x: Scalar, y: Scalar, z: Scalar) -> (r: Vec3)
        ensures
            r == Vec3::spec_new(x, y, z),
    {
        Vec3 { x, y, z }
    }

    /// The vector with whole-number components.
    pub fn from_ints(x: i64, y: i64, z: i64) -> (r: Vec3)
        ensures
            r == Vec3::spec_new(
                Scalar::spec_from_int(x),
                Scalar::spec_from_int(y),
                Scalar::spec_from_int(z),
            ),
    {
        Vec3 { x: Scalar::from_int(x), y: Scalar::from_int(y), z: Scalar::from_int(z) }
    }

    pub fn zero() -> (r: Vec3)
        ensures
            r == Vec3::spec_zero(),
    {
        Vec3 { x: Scalar::zero(), y: Scalar::zero(), z: Scalar::zero() }
    }

    pub fn x(&self) -> (r: Scalar)
        ensures
            r == self.x,
    {
        self.x
    }

    pub fn y(&self) -> (r: Scalar)
        ensures
            r == self.y,
    {
        self.y
    }

    pub fn z(&self) -> (r: Scalar)
        ensures
            r == self.z,
    {
        self.z
    }

    /// The component on axis `i`.
    pub fn index(&self, i: i32) -> (r: Scalar)
        requires
            0 <= i <= 2,
        ensures
            r == self.spec_index(i as int),
    {
        if i == 0 {
            self.x
        } else if i == 1 {
            self.y
        } else {
            self.z
        }
    }

    pub fn add(self, rhs: Vec3) -> (r: Vec3)
        ensures
            r == self.spec_add(rhs),
    {
        Vec3 { x: self.x.add(rhs.x), y: self.y.add(rhs.y), z: self.z.add(rhs.z) }
    }

    pub fn sub(self, rhs: Vec3) -> (r: Vec3)
        ensures
            r == self.spec_sub(rhs),
    {
        Vec3 { x: self.x.sub(rhs.x), y: self.y.sub(rhs.y), z: self.z.sub(rhs.z) }
    }

    pub fn neg(self) -> (r: Vec3)
        ensures
            r == self.spec_neg(),
    {
        Vec3 { x: self.x.neg(), y: self.y.neg(), z: self.z.neg() }
    }

    pub fn mul(self, rhs: Vec3) -> (r: Vec3)
        ensures
            r == self.spec_mul(rhs),
    {
        Vec3 { x: self.x.mul(rhs.x), y: self.y.mul(rhs.y), z: self.z.mul(rhs.z) }
    }

    pub fn scale(self, k: Scalar) -> (r: Vec3)
        ensures
            r == self.spec_scale(k),
    {
        Vec3 { x: self.x.mul(k), y: self.y.mul(k), z: self.z.mul(k) }
    }

    pub fn div(self, k: Scalar) -> (r: Vec3)
        ensures
            r == self.spec_div(k),
    {
        Vec3 { x: self.x.div(k), y: self.y.div(k), z: self.z.div(k) }
    }

    pub fn div_each(self, rhs: Vec3) -> (r: Vec3)
        ensures
            r == self.spec_div_each(rhs),
    {
        Vec3 { x: self.x.div(rhs.x), y: self.y.div(rhs.y), z: self.z.div(rhs.z) }
    }

    /// The component on axis `i`, to write to.
    pub fn index_mut(&mut self, i: i32) -> (r: &mut Scalar)
        requires
            0 <= i <= 2,
        ensures
            *r == old(self).spec_index(i as int),
            i == 0 ==> *final(self) == (Vec3 { x: *final(r), y: old(self).y, z: old(self).z }),
            i == 1 ==> *final(self) == (Vec3 { x: old(self).x, y: *final(r), z: old(self).z }),
            i == 2 ==> *final(self) == (Vec3 { x: old(self).x, y: old(self).y, z: *final(r) }),
    {
        if i == 0 {
            &mut self.x
        } else if i == 1 {
            &mut self.y
        } else {
            &mut self.z
        }
    }

    pub fn add_assign(&mut self, rhs: Vec3)
        ensures
            *final(self) == old(self).spec_add(rhs),
    {
        *self = self.add(rhs);
    }

    pub fn sub_assign(&mut self, rhs: Vec3)
        ensures
            *final(self) == old(self).spec_sub(rhs),
    {
        *self = self.sub(rhs);
    }

    pub fn mul_assign(&mut self, rhs: Vec3)
        ensures
            *final(self) == old(self).spec_mul(rhs),
    {
        *self = self.mul(rhs);
    }

    pub fn scale_assign(&mut self, k: Scalar)
        ensures
            *final(self) == old(self).spec_scale(k),
    {
        *self = self.scale(k);
    }

    pub fn div_assign(&mut self, k: Scalar)
        ensures
            *final(self) == old(self).spec_div(k),
    {
        *self = self.div(k);
    }

    pub fn div_each_assign(&mut self, rhs: Vec3)
        ensures
            *final(self) == old(self).spec_div_each(rhs),
    {
        *self = self.div_each(rhs);
    }

    pub fn dot(&self, rhs: &Vec3) -> (r: Scalar)
        ensures
            r == self.spec_dot(*rhs),
    {
        self.x.mul(rhs.x).add(self.y.mul(rhs.y)).add(self.z.mul(rhs.z))
    }

    pub fn cross(&self, rhs: &Vec3) -> (r: Vec3)
        ensures
            r == self.spec_cross(*rhs),
    {
        Vec3 {
            x: self.y.mul(rhs.z).sub(self.z.mul(rhs.y)),
            y: self.z.mul(rhs.x).sub(self.x.mul(rhs.z)),
            z: self.x.mul(rhs.y).sub(self.y.mul(rhs.x)),
        }
    }

    pub fn len_square(&self) -> (r: Scalar)
        ensures
            r == self.spec_len_square(),
    {
        self.dot(self)
    }

    pub fn len(&self) -> (r: Scalar)
        ensures
            r == self.spec_len(),
    {
        self.len_square().sqrt()
    }

    pub fn near_zero(&self) -> (r: bool)
        ensures
            r == self.spec_near_zero(),
    {
        self.x.abs().raw < NEAR_ZERO && self.y.abs().raw < NEAR_ZERO && self.z.abs().raw
            < NEAR_ZERO
    }

    pub fn unit_vec(self) -> (r: Vec3)
        ensures
            r == self.spec_unit_vec(),
    {
        let len: Scalar = self.len();
        self.div(len)
    }

    pub fn reflect(self, normal: Vec3) -> (r: Vec3)
        ensures
            r == self.spec_reflect(normal),
    {
        self.sub(normal.scale(Scalar::from_int(2).mul(self.dot(&normal))))
    }

    pub fn refract(self, normal: Vec3, etai_over_etat: Scalar) -> (r: Vec3)
        ensures
            r == self.spec_refract(normal, etai_over_etat),
    {
        let cos_theta: Scalar = self.neg().dot(&normal).min(Scalar::one()).max(
            Scalar::one().neg(),
        );
        let r_out_perp: Vec3 = self.add(normal.scale(cos_theta)).scale(etai_over_etat);
        let r_out_parallel: Vec3 = normal.scale(
            Scalar::one().sub(r_out_perp.len_square()).abs().sqrt().neg(),
        );
        r_out_perp.add(r_out_parallel)
    }

    /// Draws each component uniformly from `0 .. 1`.
    pub fn random(rng: &mut Sampler) -> (r: Vec3)
        ensures
            (r, final(rng).seed) == Vec3::spec_random(old(rng).seed),
    {
        Vec3::random_bounded(rng, Scalar::zero(), Scalar::one())
    }

    /// Draws each component uniformly from `min .. max`.
    pub fn random_bounded(rng: &mut Sampler, min: Scalar, max: Scalar) -> (r: Vec3)
        ensures
            (r, final(rng).seed) == Vec3::spec_random_bounded(old(rng).seed, min, max),
    {
        let x: Scalar = random_scalar(rng, min, max);
        let y: Scalar = random_scalar(rng, min, max);
        let z: Scalar = random_scalar(rng, min, max);
        Vec3 { x, y, z }
    }

    /// Draws a direction uniformly from the unit sphere.
    pub fn random_unit_vec(rng: &mut Sampler) -> (r: Vec3)
        ensures
            (r, final(rng).seed) == Vec3::spec_random_unit_vec(old(rng).seed, MAX_TRIES as nat),
    {
        let mut tries: u32 = MAX_TRIES;
        while tries > 0
            invariant
                Vec3::spec_random_unit_vec(old(rng).seed, MAX_TRIES as nat)
                    == Vec3::spec_random_unit_vec(rng.seed, tries as nat),
            decreases tries,
        {
            let p: Vec3 = Vec3::random_bounded(rng, Scalar::one().neg(), Scalar::one());
            let lensq: Scalar = p.len_square();
            if MIN_LEN_SQUARE < lensq.raw && lensq.raw <= 1_000_000 {
                return p.div(lensq.sqrt());
            }
            tries = tries - 1;
        }
        Vec3 { x: Scalar::one(), y: Scalar::zero(), z: Scalar::zero() }
    }

    /// Draws a direction from the hemisphere around `normal`.
    pub fn random_on_hemisphere(rng: &mut Sampler, normal: &Vec3) -> (r: Vec3)
        ensures
            (r, final(rng).seed) == Vec3::spec_random_on_hemisphere(old(rng).seed, *normal),
    {
        let on_unit_sphere: Vec3 = Vec3::random_unit_vec(rng);
        if on_unit_sphere.dot(normal).raw > 0 {
            on_unit_sphere
        } else {
            on_unit_sphere.neg()
        }
    }

    /// Draws a direction around the z axis by the cosine law.
    pub fn random_cosine_direction(rng: &mut Sampler) -> (r: Vec3)
        ensures
            (r, final(rng).seed) == Vec3::spec_random_cosine_direction(old(rng).seed),
    {
        let r1: Scalar = rng.uniform();
        let r2: Scalar = rng.uniform();
        let phi: Scalar = Scalar::from_int(2).mul(Scalar::pi()).mul(r1);
        Vec3 {
            x: phi.cos().mul(r2.sqrt()),
            y: phi.sin().mul(r2.sqrt()),
            z: Scalar::one().sub(r2).sqrt(),
        }
    }

    /// Draws a point from the unit disk in the plane `z = 0`.
    pub fn random_in_unit_disk(rng: &mut Sampler) -> (r: Vec3)
        ensures
            (r, final(rng).seed) == Vec3::spec_random_in_unit_disk(
                old(rng).seed,
                MAX_TRIES as nat,
            ),
    {
        let mut tries: u32 = MAX_TRIES;
        while tries > 0
            invariant
                Vec3::spec_random_in_unit_disk(old(rng).seed, MAX_TRIES as nat)
                    == Vec3::spec_random_in_unit_disk(rng.seed, tries as nat),
            decreases tries,
        {
            let x: Scalar = random_scalar(rng, Scalar::one().neg(), Scalar::one());
            let y: Scalar = random_scalar(rng, Scalar::one().neg(), Scalar::one());
            let p: Vec3 = Vec3 { x, y, z: Scalar::zero() };
            if p.len_square().raw < 1_000_000 {
                return p;
            }
            tries = tries - 1;
        }
        Vec3::zero()
    }
}

impl Default for Vec3 {
    fn default() -> (r: Vec3)
        ensures
            r == Vec3::spec_zero(),
    {
        Vec3::zero()
    }
}

} // verus!
