//! A volume of thin fog or smoke inside a convex boundary.
use vstd::prelude::*;
use std::sync::Arc;
use crate::figures::aabb::AABB;
use crate::figures::hittable::{HitRecord, Hittable, share};
use crate::materials::isotropic::Isotropic;
use crate::materials::material::Material;
use crate::textures::texture::{SolidColor, Texture};
use crate::utility::color::Color;
use crate::utility::interval::Interval;
use crate::utility::ray::Ray;
use crate::utility::scalar::Scalar;
use crate::utility::utils::{Sampler, rng_successor, spec_uniform};
use crate::utility::vec3::Vec3;

verus! {

/// Raw value of the least step from the entry into the boundary to its exit.
pub const EXIT_STEP: i64 = 100;

/// A medium of constant density: a ray that crosses it is scattered after
/// a free flight whose length is drawn from the exponential law.
pub struct ConstantMedium {
    pub boundary: Arc<Hittable>,
    pub neg_inv_density: Scalar,
    pub phase_function: Arc<Material>,
}

/// The window behind the entry at `t`.
pub open spec fn spec_beyond(t: Scalar) -> Interval {
    Interval { min: t.spec_add(Scalar { raw: EXIT_STEP }), max: Scalar::spec_infinity() }
}

impl ConstantMedium {
    /// What the medium does to a ray that enters its boundary at `t1` and
    /// leaves it at `t2`, for the uniform draw `draw`: the stretch inside is
    /// cut down to `ray_t` and to parameters from zero up; the ray is
    /// scattered where its free flight, `-ln(draw) / density` long, ends
    /// inside the stretch.
    pub open spec fn spec_scattered_at(
        self,
        r: Ray,
        ray_t: Interval,
        t1: Scalar,
        t2: Scalar,
        draw: Scalar,
    ) -> Option<HitRecord> {
        let entry = t1.spec_max(ray_t.min).spec_max(Scalar::spec_zero());
        let exit = t2.spec_min(ray_t.max);
        let ray_length = r.dir.spec_len();
        let distance_inside_boundary = exit.spec_sub(entry).spec_mul(ray_length);
        let hit_distance = self.neg_inv_density.spec_mul(draw.spec_ln());
        if hit_distance.raw > distance_inside_boundary.raw {
            None
        } else {
            let t = entry.spec_add(hit_distance.spec_div(ray_length));
            Some(
                HitRecord {
                    p: r.spec_at(t),
                    normal: Vec3 {
                        x: Scalar::spec_one(),
                        y: Scalar::spec_zero(),
                        z: Scalar::spec_zero(),
                    },
                    material: self.phase_function,
                    t,
                    u: Scalar::spec_zero(),
                    v: Scalar::spec_zero(),
                    front_face: true,
                },
            )
        }
    }

    /// The stretch from `t1` to `t2`, cut down to `ray_t`, has an inside.
    pub open spec fn spec_crosses(ray_t: Interval, t1: Scalar, t2: Scalar) -> bool {
        t1.spec_max(ray_t.min).raw < t2.spec_min(ray_t.max).raw
    }

    pub open spec fn spec_hit(self, r: Ray, ray_t: Interval, seed: u64) -> (Option<HitRecord>, u64)
        decreases self,
    {
        let (entry, s1) = self.boundary.spec_hit(r, Interval::spec_universe(), seed);
        match entry {
            None => (None, s1),
            Some(rec1) => {
                let (exit, s2) = self.boundary.spec_hit(r, spec_beyond(rec1.t), s1);
                match exit {
                    None => (None, s2),
                    Some(rec2) => if ConstantMedium::spec_crosses(ray_t, rec1.t, rec2.t) {
                        (
                            self.spec_scattered_at(r, ray_t, rec1.t, rec2.t, spec_uniform(s2)),
                            rng_successor(s2),
                        )
                    } else {
                        (None, s2)
                    },
                }
            },
        }
    }

    /// A medium of the given density whose particles have the texture `tex`.
    pub fn new(boundary: Arc<Hittable>, density: Scalar, tex: Texture) -> (r: ConstantMedium)
        ensures
            r.boundary == boundary,
            r.neg_inv_density == Scalar::spec_one().spec_neg().spec_div(density),
            *r.phase_function == Material::Isotropic(Isotropic { tex }),
    {
        ConstantMedium {
            boundary,
            neg_inv_density: Scalar::one().neg().div(density),
            phase_function: Arc::new(Material::Isotropic(Isotropic::new(tex))),
        }
    }

    /// A medium of the given density whose particles have the colour `albedo`.
    pub fn from_color(boundary: Arc<Hittable>, density: Scalar, albedo: Color) -> (r:
        ConstantMedium)
        ensures
            r.boundary == boundary,
            r.neg_inv_density == Scalar::spec_one().spec_neg().spec_div(density),
            *r.phase_function == Material::Isotropic(
                Isotropic { tex: Texture::Solid(SolidColor { albedo }) },
            ),
    {
        ConstantMedium {
            boundary,
            neg_inv_density: Scalar::one().neg().div(density),
            phase_function: Arc::new(Material::Isotropic(Isotropic::from_color(albedo))),
        }
    }

    /// Scatters the ray between entry `t1` and exit `t2`, as `draw` decides.
    pub fn scattered_at(&self, r: &Ray, ray_t: Interval, t1: Scalar, t2: Scalar, draw: Scalar) -> (res:
        Option<HitRecord>)
        ensures
            res == self.spec_scattered_at(*r, ray_t, t1, t2, draw),
    {
        let entry: Scalar = t1.max(ray_t.min).max(Scalar::zero());
        let exit: Scalar = t2.min(ray_t.max);
        let ray_length: Scalar = r.dir.len();
        let distance_inside_boundary: Scalar = exit.sub(entry).mul(ray_length);
        let hit_distance: Scalar = self.neg_inv_density.mul(draw.ln());
        if hit_distance.raw > distance_inside_boundary.raw {
            return None;
        }
        let t: Scalar = entry.add(hit_distance.div(ray_length));
        Some(
            HitRecord {
                p: r.at(t),
                normal: Vec3::new(Scalar::one(), Scalar::zero(), Scalar::zero()),
                material: share(&self.phase_function),
                t,
                u: Scalar::zero(),
                v: Scalar::zero(),
                front_face: true,
            },
        )
    }

    pub fn hit(&self, r: &Ray, ray_t: Interval, rng: &mut Sampler) -> (res: Option<HitRecord>)
        ensures
            (res, final(rng).seed) == self.spec_hit(*r, ray_t, old(rng).seed),
        decreases self,
    {
        let rec1: HitRecord = match self.boundary.hit(r, Interval::universe(), rng) {
            Some(rec) => rec,
            None => {
                return None;
            },
        };
        let beyond: Interval = Interval::new(
            rec1.t.add(Scalar { raw: EXIT_STEP }),
            Scalar::infinity(),
        );
        let rec2: HitRecord = match self.boundary.hit(r, beyond, rng) {
            Some(rec) => rec,
            None => {
                return None;
            },
        };
        if rec1.t.max(ray_t.min).raw >= rec2.t.min(ray_t.max).raw {
            return None;
        }
        let draw: Scalar = rng.uniform();
        self.scattered_at(r, ray_t, rec1.t, rec2.t, draw)
    }

    pub fn bounding_box(&self) -> (r: AABB)
        ensures
            r == self.boundary.spec_bounding_box(),
        decreases self,
    {
        self.boundary.bounding_box()
    }
}

} // verus!
