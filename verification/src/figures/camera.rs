//! The camera: primary rays, the radiance along a ray, and the image.
use vstd::prelude::*;
use crate::figures::hittable::{HitRecord, Hittable};
use crate::image_formats::ppm::PPM;
use crate::materials::material::ScatteredRay;
use crate::utility::color::Color;
use crate::utility::interval::Interval;
use crate::utility::ray::Ray;
use crate::utility::scalar::Scalar;
use crate::utility::utils::{
    Sampler,
    degrees_to_radians,
    rng_successor,
    spec_degrees_to_radians,
    spec_uniform,
};
use crate::utility::vec3::{Point3, Vec3, MAX_TRIES};

verus! {

/// Raw value of the least ray parameter at which a hit counts, so that a
/// scattered ray does not hit the surface it leaves.
pub const MIN_T: i64 = 1_000;

/// Most pixels that an image may have.
pub const MAX_PIXELS: u64 = 0xffff_ffff;

pub struct ImageSettings {
    pub aspect_ratio: Scalar,
    pub image_width: i32,
    pub samples_per_pixel: i32,
    pub max_depth: i32,
    pub background: Color,
}

pub struct ViewSettings {
    pub vfov: Scalar,
    pub look_from: Point3,
    pub look_at: Point3,
    pub vup: Vec3,
}

pub struct DefocusSettings {
    pub defocus_angle: Scalar,
    pub focus_dist: Scalar,
}

/// Why a camera cannot be made from its settings.
#[derive(Clone, Copy, Debug, PartialEq, Eq, Structural)]
pub enum CameraError {
    /// The image is less than one pixel wide.
    ImageWidth,
    /// There is less than one sample per pixel.
    SamplesPerPixel,
    /// The aspect ratio is not above zero.
    AspectRatio,
    /// The image has more than `MAX_PIXELS` pixels.
    ImageSize,
}

/// 400 pixels wide at 16 : 9, 100 samples per pixel, 50 bounces, under a
/// light blue sky.
pub open spec fn spec_default_image() -> ImageSettings {
    ImageSettings {
        aspect_ratio: Scalar::spec_from_ratio(16, 9),
        image_width: 400,
        samples_per_pixel: 100,
        max_depth: 50,
        background: Vec3::spec_new(
            Scalar::spec_from_ratio(7, 10),
            Scalar::spec_from_ratio(8, 10),
            Scalar::spec_one(),
        ),
    }
}

/// At the origin, looking down the negative z axis, y up, 90 degrees of view.
pub open spec fn spec_default_view() -> ViewSettings {
    ViewSettings {
        vfov: Scalar::spec_from_int(90),
        look_from: Vec3::spec_zero(),
        look_at: Vec3::spec_new(Scalar::spec_zero(), Scalar::spec_zero(), Scalar::spec_from_int(-1i64)),
        vup: Vec3::spec_new(Scalar::spec_zero(), Scalar::spec_one(), Scalar::spec_zero()),
    }
}

/// No defocus; focus at distance 10.
pub open spec fn spec_default_defocus() -> DefocusSettings {
    DefocusSettings { defocus_angle: Scalar::spec_zero(), focus_dist: Scalar::spec_from_int(10) }
}

impl Default for ImageSettings {
    fn default() -> (r: ImageSettings)
        ensures
            r == spec_default_image(),
    {
        ImageSettings {
            aspect_ratio: Scalar::from_ratio(16, 9),
            image_width: 400,
            samples_per_pixel: 100,
            max_depth: 50,
            background: Vec3::new(
                Scalar::from_ratio(7, 10),
                Scalar::from_ratio(8, 10),
                Scalar::one(),
            ),
        }
    }
}

impl Default for ViewSettings {
    fn default() -> (r: ViewSettings)
        ensures
            r == spec_default_view(),
    {
        ViewSettings {
            vfov: Scalar::from_int(90),
            look_from: Vec3::zero(),
            look_at: Vec3::from_ints(0, 0, -1),
            vup: Vec3::from_ints(0, 1, 0),
        }
    }
}

impl Default for DefocusSettings {
    fn default() -> (r: DefocusSettings)
        ensures
            r == spec_default_defocus(),
    {
        DefocusSettings { defocus_angle: Scalar::zero(), focus_dist: Scalar::from_int(10) }
    }
}

#[derive(Clone, Copy, Debug, PartialEq, Eq, Structural)]
pub struct Camera {
    pub aspect_ratio: Scalar,
    pub image_width: i32,
    pub samples_per_pixel: i32,
    pub max_depth: i32,
    pub background: Color,
    pub vfov: Scalar,
    pub look_from: Point3,
    pub look_at: Point3,
    pub vup: Vec3,
    /// Scale of a sum of samples: one over their number.
    pub pixel_samples_scale: Scalar,
    pub image_height: i32,
    /// Cells along each side of the grid of samples in a pixel.
    pub sqrt_spp: i32,
    pub recip_sqrt_spp: Scalar,
    pub center: Point3,
    /// Centre of the pixel in row 0, column 0.
    pub pixel00_loc: Point3,
    /// From one pixel to the next on its right.
    pub pixel_delta_u: Vec3,
    /// From one pixel to the next below.
    pub pixel_delta_v: Vec3,
    pub u: Vec3,
    pub v: Vec3,
    pub w: Vec3,
    pub defocus_angle: Scalar,
    pub focus_dist: Scalar,
    pub defocus_disk_u: Vec3,
    pub defocus_disk_v: Vec3,
}

/// The blend `(1 - progress) * start + progress * end`.
pub open spec fn spec_lerp(start: Color, end: Color, progress: Scalar) -> Color {
    start.spec_scale(Scalar::spec_one().spec_sub(progress)).spec_add(end.spec_scale(progress))
}

pub fn lerp(start: Color, end: Color, progress: Scalar) -> (r: Color)
    ensures
        r == spec_lerp(start, end, progress),
{
    start.scale(Scalar::one().sub(progress)).add(end.scale(progress))
}

/// The height in pixels of an image `image_width` wide: the width over the
/// aspect ratio, rounded down, and at least one.
pub open spec fn spec_image_height(image_width: i32, aspect_ratio: Scalar) -> i32 {
    let h = Scalar::spec_from_int(image_width as i64).spec_div(aspect_ratio).spec_floor();
    if h < 1 {
        1
    } else if h > i32::MAX {
        i32::MAX
    } else {
        h as i32
    }
}

/// The whole part of the square root of the number of samples.
pub open spec fn spec_sqrt_spp(samples_per_pixel: i32) -> i32 {
    Scalar::spec_from_int(samples_per_pixel as i64).spec_sqrt().spec_floor() as i32
}

/// What is wrong with the settings, if anything.
pub open spec fn spec_check(image: ImageSettings) -> Option<CameraError> {
    if image.image_width < 1 {
        Some(CameraError::ImageWidth)
    } else if image.samples_per_pixel < 1 {
        Some(CameraError::SamplesPerPixel)
    } else if image.aspect_ratio.raw <= 0 {
        Some(CameraError::AspectRatio)
    } else if image.image_width * spec_image_height(image.image_width, image.aspect_ratio)
        > MAX_PIXELS {
        Some(CameraError::ImageSize)
    } else {
        None
    }
}

/// The seed of the pixel with the given index, for an image of seed `seed`.
pub open spec fn spec_pixel_seed(seed: u64, index: int) -> u64 {
    ((seed + index) % 0x1_0000_0000_0000_0000) as u64
}

fn image_height(image_width: i32, aspect_ratio: Scalar) -> (r: i32)
    ensures
        r == spec_image_height(image_width, aspect_ratio),
        r >= 1,
{
    let h: i64 = Scalar::from_int(image_width as i64).div(aspect_ratio).floor();
    if h < 1 {
        1
    } else if h > 0x7fff_ffff {
        0x7fff_ffff
    } else {
        h as i32
    }
}

fn sqrt_spp(samples_per_pixel: i32) -> (r: i32)
    ensures
        r == spec_sqrt_spp(samples_per_pixel),
        0 <= r <= 0x1_0000,
{
    let root: Scalar = Scalar::from_int(samples_per_pixel as i64).sqrt();
    proof {
        let n = Scalar::spec_from_int(samples_per_pixel as i64);
        if n.raw > 0 {
            assert(root.raw < 0x1_0000 * 1_000_000) by (nonlinear_arith)
                requires
                    root.raw >= 0,
                    root.raw * root.raw <= n.raw * 1_000_000,
                    n.raw <= 0x7fff_ffff * 1_000_000,
            ;
        }
    }
    root.floor() as i32
}

fn pixel_seed(seed: u64, index: u64) -> (r: u64)
    ensures
        r == spec_pixel_seed(seed, index as int),
{
    (((seed as u128) + (index as u128)) % 0x1_0000_0000_0000_0000) as u64
}

impl Camera {
    /// The camera has pixels, and not too many.
    pub open spec fn spec_wf(self) -> bool {
        &&& self.image_width >= 1
        &&& self.image_height >= 1
        &&& self.image_width * self.image_height <= MAX_PIXELS
        &&& 0 <= self.sqrt_spp <= 0x1_0000
    }

    /// The camera for the given settings.
    ///
    /// The frame `(u, v, w)` points right, up and backwards; the viewport
    /// lies `focus_dist` in front of the centre and is `2 tan(vfov / 2)
    /// focus_dist` high.
    #[verifier::opaque]
    pub open spec fn spec_configure(
        image: ImageSettings,
        view: ViewSettings,
        defocus: DefocusSettings,
    ) -> Camera {
        let height = spec_image_height(image.image_width, image.aspect_ratio);
        let grid = spec_sqrt_spp(image.samples_per_pixel);
        let two = Scalar::spec_from_int(2);
        let width_s = Scalar::spec_from_int(image.image_width as i64);
        let height_s = Scalar::spec_from_int(height as i64);
        let h = spec_degrees_to_radians(view.vfov).spec_div(two).spec_tan();
        let viewport_height = two.spec_mul(h).spec_mul(defocus.focus_dist);
        let viewport_width = viewport_height.spec_mul(width_s.spec_div(height_s));
        let w = view.look_from.spec_sub(view.look_at).spec_unit_vec();
        let u = view.vup.spec_cross(w).spec_unit_vec();
        let v = w.spec_cross(u);
        let viewport_u = u.spec_scale(viewport_width);
        let viewport_v = v.spec_neg().spec_scale(viewport_height);
        let pixel_delta_u = viewport_u.spec_div(width_s);
        let pixel_delta_v = viewport_v.spec_div(height_s);
        let viewport_upper_left = view.look_from.spec_sub(w.spec_scale(defocus.focus_dist)).spec_sub(
            viewport_u.spec_div(two),
        ).spec_sub(viewport_v.spec_div(two));
        let defocus_radius = defocus.focus_dist.spec_mul(
            spec_degrees_to_radians(defocus.defocus_angle.spec_div(two)).spec_tan(),
        );
        Camera {
            aspect_ratio: image.aspect_ratio,
            image_width: image.image_width,
            samples_per_pixel: image.samples_per_pixel,
            max_depth: image.max_depth,
            background: image.background,
            vfov: view.vfov,
            look_from: view.look_from,
            look_at: view.look_at,
            vup: view.vup,
            pixel_samples_scale: Scalar::spec_one().spec_div(
                Scalar::spec_from_int((grid as i64 * grid as i64) as i64),
            ),
            image_height: height,
            sqrt_spp: grid,
            recip_sqrt_spp: Scalar::spec_one().spec_div(Scalar::spec_from_int(grid as i64)),
            center: view.look_from,
            pixel00_loc: viewport_upper_left.spec_add(
                pixel_delta_u.spec_add(pixel_delta_v).spec_scale(Scalar::spec_from_ratio(1, 2)),
            ),
            pixel_delta_u,
            pixel_delta_v,
            u,
            v,
            w,
            defocus_angle: defocus.defocus_angle,
            focus_dist: defocus.focus_dist,
            defocus_disk_u: u.spec_scale(defocus_radius),
            defocus_disk_v: v.spec_scale(defocus_radius),
        }
    }

    /// A point of the cell `(s_i, s_j)` of the grid of samples, relative to
    /// the pixel's centre, with the pixel one unit wide.
    pub open spec fn spec_sample_square_stratified(self, s_i: i32, s_j: i32, seed: u64) -> (
        Vec3,
        u64,
    ) {
        let s1 = rng_successor(seed);
        let half = Scalar::spec_from_ratio(1, 2);
        (
            Vec3 {
                x: Scalar::spec_from_int(s_i as i64).spec_add(spec_uniform(seed)).spec_mul(
                    self.recip_sqrt_spp,
                ).spec_sub(half),
                y: Scalar::spec_from_int(s_j as i64).spec_add(spec_uniform(s1)).spec_mul(
                    self.recip_sqrt_spp,
                ).spec_sub(half),
                z: Scalar::spec_zero(),
            },
            rng_successor(s1),
        )
    }

    /// A point of the unit square around the origin.
    pub open spec fn spec_sample_square(seed: u64) -> (Vec3, u64) {
        let s1 = rng_successor(seed);
        let half = Scalar::spec_from_ratio(1, 2);
        (
            Vec3 {
                x: spec_uniform(seed).spec_sub(half),
                y: spec_uniform(s1).spec_sub(half),
                z: Scalar::spec_zero(),
            },
            rng_successor(s1),
        )
    }

    /// A point of the defocus disk around the camera's centre.
    pub open spec fn spec_defocus_disk_sample(self, seed: u64) -> (Point3, u64) {
        let (p, next) = Vec3::spec_random_in_unit_disk(seed, MAX_TRIES as nat);
        (
            self.center.spec_add(self.defocus_disk_u.spec_scale(p.x)).spec_add(
                self.defocus_disk_v.spec_scale(p.y),
            ),
            next,
        )
    }

    /// The ray for the cell `(s_i, s_j)` of the pixel in column `i` of row
    /// `j`: from the centre, or from the defocus disk where there is
    /// defocus, through a point of the cell, at a moment drawn from `0 .. 1`.
    pub open spec fn spec_get_ray(self, i: i32, j: i32, s_i: i32, s_j: i32, seed: u64) -> (Ray, u64) {
        let (offset, s1) = self.spec_sample_square_stratified(s_i, s_j, seed);
        let pixel_sample = self.pixel00_loc.spec_add(
            self.pixel_delta_u.spec_scale(Scalar::spec_from_int(i as i64).spec_add(offset.x)),
        ).spec_add(
            self.pixel_delta_v.spec_scale(Scalar::spec_from_int(j as i64).spec_add(offset.y)),
        );
        let (ray_origin, s2) = if self.defocus_angle.raw <= 0 {
            (self.center, s1)
        } else {
            self.spec_defocus_disk_sample(s1)
        };
        (
            Ray::spec_with_time(ray_origin, pixel_sample.spec_sub(ray_origin), spec_uniform(s2)),
            rng_successor(s2),
        )
    }

    /// The window in which hits count: from just above zero on.
    pub open spec fn spec_window() -> Interval {
        Interval { min: Scalar { raw: MIN_T }, max: Scalar::spec_infinity() }
    }

    /// The radiance that arrives along `r` after at most `depth` bounces:
    /// nothing once the bounces are used up; the background where the ray
    /// hits nothing; else what the surface gives off, plus, where it
    /// scatters the ray, its attenuation times the radiance along the
    /// scattered ray.
    pub open spec fn spec_ray_color(self, r: Ray, depth: int, world: Hittable, seed: u64) -> (
        Color,
        u64,
    )
        decreases depth,
    {
        if depth <= 0 {
            (Vec3::spec_zero(), seed)
        } else {
            let (found, s1) = world.spec_hit(r, Camera::spec_window(), seed);
            match found {
                None => (self.background, s1),
                Some(rec) => {
                    let color_from_emission = rec.material.spec_emitted(r, rec, rec.u, rec.v, rec.p);
                    let (scattered, s2) = rec.material.spec_scatter(r, rec, s1);
                    match scattered {
                        None => (color_from_emission, s2),
                        Some(sr) => {
                            let (incoming, s3) = self.spec_ray_color(sr.ray, depth - 1, world, s2);
                            (color_from_emission.spec_add(sr.attenuation.spec_mul(incoming)), s3)
                        },
                    }
                },
            }
        }
    }

    /// The sum of the first `k` samples of the pixel in column `i` of row
    /// `j`; the cells of the grid are taken row by row.
    pub open spec fn spec_accumulate(self, world: Hittable, i: i32, j: i32, k: nat, seed: u64) -> (
        Color,
        u64,
    )
        decreases k,
    {
        if k == 0 || self.sqrt_spp <= 0 {
            (Vec3::spec_zero(), seed)
        } else {
            let (sum, s) = self.spec_accumulate(world, i, j, (k - 1) as nat, seed);
            let cell = (k - 1) as int;
            let (r, s1) = self.spec_get_ray(
                i,
                j,
                (cell % self.sqrt_spp as int) as i32,
                (cell / self.sqrt_spp as int) as i32,
                s,
            );
            let (c, s2) = self.spec_ray_color(r, self.max_depth as int, world, s1);
            (sum.spec_add(c), s2)
        }
    }

    /// The colour of the pixel in column `i` of row `j`: the mean of one
    /// sample for each cell of its grid.
    pub open spec fn spec_pixel_color(self, world: Hittable, i: i32, j: i32, seed: u64) -> (
        Color,
        u64,
    ) {
        let (sum, next) = self.spec_accumulate(
            world,
            i,
            j,
            (self.sqrt_spp * self.sqrt_spp) as nat,
            seed,
        );
        (sum.spec_scale(self.pixel_samples_scale), next)
    }

    /// A camera for the settings, or what is wrong with them.
    pub fn new(
        image_settings: ImageSettings,
        view_settings: ViewSettings,
        defocus_settings: DefocusSettings,
    ) -> (r: Result<Camera, CameraError>)
        ensures
            match r {
                Ok(c) => spec_check(image_settings) is None && c == Camera::spec_configure(
                    image_settings,
                    view_settings,
                    defocus_settings,
                ) && c.spec_wf(),
                Err(e) => spec_check(image_settings) == Some(e),
            },
    {
        if image_settings.image_width < 1 {
            return Err(CameraError::ImageWidth);
        }
        if image_settings.samples_per_pixel < 1 {
            return Err(CameraError::SamplesPerPixel);
        }
        if image_settings.aspect_ratio.raw <= 0 {
            return Err(CameraError::AspectRatio);
        }
        let height: i32 = image_height(image_settings.image_width, image_settings.aspect_ratio);
        assert(image_settings.image_width * height <= 0x7fff_ffff * 0x7fff_ffff) by (nonlinear_arith)
            requires
                1 <= image_settings.image_width <= 0x7fff_ffff,
                1 <= height <= 0x7fff_ffff,
        ;
        if (image_settings.image_width as u64) * (height as u64) > MAX_PIXELS {
            return Err(CameraError::ImageSize);
        }
        proof {
            reveal(Camera::spec_configure);
        }
        let grid: i32 = sqrt_spp(image_settings.samples_per_pixel);
        assert(grid * grid <= 0x1_0000 * 0x1_0000) by (nonlinear_arith)
            requires
                0 <= grid <= 0x1_0000,
        ;
        let two: Scalar = Scalar::from_int(2);
        let width_s: Scalar = Scalar::from_int(image_settings.image_width as i64);
        let height_s: Scalar = Scalar::from_int(height as i64);
        let h: Scalar = degrees_to_radians(view_settings.vfov).div(two).tan();
        let viewport_height: Scalar = two.mul(h).mul(defocus_settings.focus_dist);
        let viewport_width: Scalar = viewport_height.mul(width_s.div(height_s));
        let w: Vec3 = view_settings.look_from.sub(view_settings.look_at).unit_vec();
        let u: Vec3 = view_settings.vup.cross(&w).unit_vec();
        let v: Vec3 = w.cross(&u);
        let viewport_u: Vec3 = u.scale(viewport_width);
        let viewport_v: Vec3 = v.neg().scale(viewport_height);
        let pixel_delta_u: Vec3 = viewport_u.div(width_s);
        let pixel_delta_v: Vec3 = viewport_v.div(height_s);
        let viewport_upper_left: Vec3 = view_settings.look_from.sub(
            w.scale(defocus_settings.focus_dist),
        ).sub(viewport_u.div(two)).sub(viewport_v.div(two));
        let defocus_radius: Scalar = defocus_settings.focus_dist.mul(
            degrees_to_radians(defocus_settings.defocus_angle.div(two)).tan(),
        );
        Ok(
            Camera {
                aspect_ratio: image_settings.aspect_ratio,
                image_width: image_settings.image_width,
                samples_per_pixel: image_settings.samples_per_pixel,
                max_depth: image_settings.max_depth,
                background: image_settings.background,
                vfov: view_settings.vfov,
                look_from: view_settings.look_from,
                look_at: view_settings.look_at,
                vup: view_settings.vup,
                pixel_samples_scale: Scalar::one().div(
                    Scalar::from_int((grid as i64) * (grid as i64)),
                ),
                image_height: height,
                sqrt_spp: grid,
                recip_sqrt_spp: Scalar::one().div(Scalar::from_int(grid as i64)),
                center: view_settings.look_from,
                pixel00_loc: viewport_upper_left.add(
                    pixel_delta_u.add(pixel_delta_v).scale(Scalar::from_ratio(1, 2)),
                ),
                pixel_delta_u,
                pixel_delta_v,
                u,
                v,
                w,
                defocus_angle: defocus_settings.defocus_angle,
                focus_dist: defocus_settings.focus_dist,
                defocus_disk_u: u.scale(defocus_radius),
                defocus_disk_v: v.scale(defocus_radius),
            },
        )
    }

    pub fn sample_square_stratified(&self, s_i: i32, s_j: i32, rng: &mut Sampler) -> (r: Vec3)
        ensures
            (r, final(rng).seed) == self.spec_sample_square_stratified(s_i, s_j, old(rng).seed),
    {
        let half: Scalar = Scalar::from_ratio(1, 2);
        let px: Scalar = Scalar::from_int(s_i as i64).add(rng.uniform()).mul(
            self.recip_sqrt_spp,
        ).sub(half);
        let py: Scalar = Scalar::from_int(s_j as i64).add(rng.uniform()).mul(
            self.recip_sqrt_spp,
        ).sub(half);
        Vec3::new(px, py, Scalar::zero())
    }

    pub fn sample_square(rng: &mut Sampler) -> (r: Vec3)
        ensures
            (r, final(rng).seed) == Camera::spec_sample_square(old(rng).seed),
    {
        let half: Scalar = Scalar::from_ratio(1, 2);
        let px: Scalar = rng.uniform().sub(half);
        let py: Scalar = rng.uniform().sub(half);
        Vec3::new(px, py, Scalar::zero())
    }

    pub fn defocus_disk_sample(&self, rng: &mut Sampler) -> (r: Point3)
        ensures
            (r, final(rng).seed) == self.spec_defocus_disk_sample(old(rng).seed),
    {
        let p: Vec3 = Vec3::random_in_unit_disk(rng);
        self.center.add(self.defocus_disk_u.scale(p.x)).add(self.defocus_disk_v.scale(p.y))
    }

    pub fn get_ray(&self, i: i32, j: i32, s_i: i32, s_j: i32, rng: &mut Sampler) -> (r: Ray)
        ensures
            (r, final(rng).seed) == self.spec_get_ray(i, j, s_i, s_j, old(rng).seed),
            0 <= r.time.raw < 1_000_000,
    {
        let offset: Vec3 = self.sample_square_stratified(s_i, s_j, rng);
        let pixel_sample: Point3 = self.pixel00_loc.add(
            self.pixel_delta_u.scale(Scalar::from_int(i as i64).add(offset.x)),
        ).add(self.pixel_delta_v.scale(Scalar::from_int(j as i64).add(offset.y)));
        let ray_origin: Point3 = if self.defocus_angle.raw <= 0 {
            self.center
        } else {
            self.defocus_disk_sample(rng)
        };
        let ray_direction: Vec3 = pixel_sample.sub(ray_origin);
        let ray_time: Scalar = rng.uniform();
        Ray::with_time(ray_origin, ray_direction, ray_time)
    }

    /// The radiance along `r` after at most `depth` bounces; nothing, and
    /// no draw, where `depth` is zero or less.
    pub fn ray_color(&self, r: &Ray, depth: i32, world: &Hittable, rng: &mut Sampler) -> (c:
        Color)
        ensures
            (c, final(rng).seed) == self.spec_ray_color(*r, depth as int, *world, old(rng).seed),
            depth <= 0 ==> c == Vec3::spec_zero() && final(rng).seed == old(rng).seed,
        decreases depth,
    {
        if depth <= 0 {
            return Vec3::zero();
        }
        let window: Interval = Interval::new(Scalar { raw: MIN_T }, Scalar::infinity());
        let rec: HitRecord = match world.hit(r, window, rng) {
            Some(rec) => rec,
            None => {
                return self.background;
            },
        };
        let color_from_emission: Color = rec.material.emitted(r, &rec, rec.u, rec.v, rec.p);
        let scattered_ray: ScatteredRay = match rec.material.scatter(r, &rec, rng) {
            Some(sr) => sr,
            None => {
                return color_from_emission;
            },
        };
        let color_from_scatter: Color = scattered_ray.attenuation.mul(
            self.ray_color(&scattered_ray.ray, depth - 1, world, rng),
        );
        color_from_emission.add(color_from_scatter)
    }

    /// The colour of the pixel in column `i` of row `j`.
    pub fn pixel_color(&self, world: &Hittable, i: i32, j: i32, rng: &mut Sampler) -> (c: Color)
        requires
            self.spec_wf(),
        ensures
            (c, final(rng).seed) == self.spec_pixel_color(*world, i, j, old(rng).seed),
    {
        let n: i64 = self.sqrt_spp as i64;
        assert(n * n <= 0x1_0000 * 0x1_0000) by (nonlinear_arith)
            requires
                0 <= n <= 0x1_0000,
        ;
        let cells: i64 = n * n;
        let mut pixel_color: Color = Vec3::zero();
        let mut k: i64 = 0;
        while k < cells
            invariant
                0 <= k <= cells,
                cells == n * n,
                n == self.sqrt_spp,
                0 <= n <= 0x1_0000,
                (pixel_color, rng.seed) == self.spec_accumulate(
                    *world,
                    i,
                    j,
                    k as nat,
                    old(rng).seed,
                ),
            decreases cells - k,
        {
            assert(n > 0) by (nonlinear_arith)
                requires
                    0 <= k < n * n,
                    0 <= n,
            ;
            let s_i: i64 = k % n;
            let s_j: i64 = k / n;
            assert(s_j < n) by (nonlinear_arith)
                requires
                    0 <= k < n * n,
                    n > 0,
                    s_j == k / n,
            ;
            let r: Ray = self.get_ray(i, j, s_i as i32, s_j as i32, rng);
            let c: Color = self.ray_color(&r, self.max_depth, world, rng);
            pixel_color = pixel_color.add(c);
            k = k + 1;
        }
        pixel_color.scale(self.pixel_samples_scale)
    }

    /// The colour of the pixel in column `col` of row `row`, for an image of
    /// seed `seed`: each pixel draws from a seed of its own.
    pub open spec fn spec_pixel(self, world: Hittable, row: usize, col: usize, seed: u64) -> Color {
        self.spec_pixel_color(
            world,
            col as i32,
            row as i32,
            spec_pixel_seed(seed, row * self.image_width + col),
        ).0
    }

    /// The colour of the pixel in column `col` of row `row`, for an image
    /// of seed `seed`.
    pub fn pixel(&self, world: &Hittable, row: usize, col: usize, seed: u64) -> (c: Color)
        requires
            self.spec_wf(),
            row < self.image_height,
            col < self.image_width,
        ensures
            c == self.spec_pixel(*world, row, col, seed),
    {
        assert(row * self.image_width + col < self.image_width * self.image_height)
            by (nonlinear_arith)
            requires
                0 <= row < self.image_height,
                0 <= col < self.image_width,
        ;
        let index: u64 = (row as u64) * (self.image_width as u64) + (col as u64);
        let mut rng: Sampler = Sampler::new(pixel_seed(seed, index));
        self.pixel_color(world, col as i32, row as i32, &mut rng)
    }

    /// The image of `world`, for the seed `seed`.
    pub fn render(&self, world: &Hittable, seed: u64) -> (r: PPM)
        requires
            self.spec_wf(),
        ensures
            r.cols == self.image_width,
            r.rows == self.image_height,
            r.max_color == 255,
            r.spec_wf(),
            forall|row: usize, col: usize|
                row < r.rows && col < r.cols ==> #[trigger] r.values@[row * r.cols + col]
                    == self.spec_pixel(*world, row, col, seed),
    {
        let cols: usize = self.image_width as usize;
        let rows: usize = self.image_height as usize;
        assert(cols * rows == self.image_width * self.image_height) by (nonlinear_arith)
            requires
                cols == self.image_width,
                rows == self.image_height,
        ;
        let gen = |row: usize, col: usize| -> (c: Color)
            requires
                row < rows,
                col < cols,
            ensures
                c == self.spec_pixel(*world, row, col, seed),
            { self.pixel(world, row, col, seed) };
        PPM::generate(cols, rows, 255, gen)
    }
}

impl Default for Camera {
    /// The camera of the default settings: 400 by 225 pixels.
    fn default() -> (r: Camera)
        ensures
            r == Camera::spec_configure(
                spec_default_image(),
                spec_default_view(),
                spec_default_defocus(),
            ),
            r.spec_wf(),
            r.image_width == 400,
            r.image_height == 225,
    {
        let image_settings: ImageSettings = ImageSettings::default();
        proof {
            vstd::arithmetic::div_mod::lemma_fundamental_div_mod_converse(
                16_000_000_000_000,
                9_000_000,
                1_777_777,
                7_000_000,
            );
            vstd::arithmetic::div_mod::lemma_fundamental_div_mod_converse(
                400_000_000_000_000,
                1_777_777,
                225_000_098,
                777_854,
            );
            reveal(Camera::spec_configure);
        }
        match Camera::new(image_settings, ViewSettings::default(), DefocusSettings::default()) {
            Ok(c) => c,
            Err(_) => vstd::pervasive::unreached(),
        }
    }
}

/// With no bounce left a ray carries nothing, whatever the scene, and no
/// random number is drawn.
pub proof fn lemma_no_depth_no_light(cam: Camera, r: Ray, depth: int, world: Hittable, seed: u64)
    requires
        depth <= 0,
    ensures
        cam.spec_ray_color(r, depth, world, seed) == (Vec3::spec_zero(), seed),
{
}

} // verus!
