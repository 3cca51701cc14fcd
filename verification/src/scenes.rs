//! Ready-made scenes: a world and the camera that looks at it.
use vstd::prelude::*;
use std::sync::Arc;
use crate::figures::bvh::BvhNode;
use crate::figures::camera::{
    Camera,
    CameraError,
    DefocusSettings,
    ImageSettings,
    ViewSettings,
    spec_check,
    spec_image_height,
};
use crate::figures::constant_medium::ConstantMedium;
use crate::figures::cube::{Cube, spec_is_face};
use crate::figures::hittable::{Hittable, share};
use crate::figures::hittable_list::HitList;
use crate::figures::quad::Quad;
use crate::figures::rotate::Rotate;
use crate::figures::sphere::Sphere;
use crate::figures::translate::Translate;
use crate::image_formats::ppm::PPM;
use crate::materials::dielectric::Dielectric;
use crate::materials::emissive::DiffuseLight;
use crate::materials::lambertian::Lambertian;
use crate::materials::material::Material;
use crate::materials::metal::Metal;
use crate::textures::checker::CheckerTexture;
use crate::textures::image::ImageTexture;
use crate::textures::noise::NoiseTexture;
use crate::textures::texture::Texture;
use crate::utility::color::Color;
use crate::utility::scalar::Scalar;
use crate::utility::utils::{
    Sampler,
    random_scalar,
    rng_successor,
    spec_random_scalar,
    spec_uniform,
};
use crate::utility::vec3::{Point3, Vec3};

verus! {

/// A world and the camera that looks at it.
pub struct Scene {
    pub world: Hittable,
    pub camera: Camera,
}

/// The colour with the given components in hundredths.
pub open spec fn spec_rgb(r: int, g: int, b: int) -> Color {
    Vec3 {
        x: Scalar::spec_from_ratio(r as i64, 100),
        y: Scalar::spec_from_ratio(g as i64, 100),
        z: Scalar::spec_from_ratio(b as i64, 100),
    }
}

/// The vector with the given whole components.
pub open spec fn spec_v(x: int, y: int, z: int) -> Vec3 {
    Vec3 {
        x: Scalar::spec_from_int(x as i64),
        y: Scalar::spec_from_int(y as i64),
        z: Scalar::spec_from_int(z as i64),
    }
}

/// The image settings with the given numbers; the aspect ratio is
/// `aspect_num / aspect_den`, the background is in hundredths.
pub open spec fn spec_image(
    aspect_num: int,
    aspect_den: int,
    image_width: i32,
    samples_per_pixel: i32,
    max_depth: i32,
    background: (int, int, int),
) -> ImageSettings {
    ImageSettings {
        aspect_ratio: Scalar::spec_from_ratio(aspect_num as i64, aspect_den as i64),
        image_width,
        samples_per_pixel,
        max_depth,
        background: spec_rgb(background.0, background.1, background.2),
    }
}

/// The view from `look_from` at `look_at` with y up and `vfov` degrees of view.
pub open spec fn spec_view(vfov: int, look_from: (int, int, int), look_at: (int, int, int)) -> ViewSettings {
    ViewSettings {
        vfov: Scalar::spec_from_int(vfov as i64),
        look_from: spec_v(look_from.0, look_from.1, look_from.2),
        look_at: spec_v(look_at.0, look_at.1, look_at.2),
        vup: spec_v(0, 1, 0),
    }
}

/// No defocus; focus at distance 10.
pub open spec fn spec_sharp() -> DefocusSettings {
    DefocusSettings { defocus_angle: Scalar::spec_zero(), focus_dist: Scalar::spec_from_int(10) }
}

/// Defocus by 0.6 degrees; focus at distance 10.
pub open spec fn spec_soft() -> DefocusSettings {
    DefocusSettings {
        defocus_angle: Scalar::spec_from_ratio(6, 10),
        focus_dist: Scalar::spec_from_int(10),
    }
}

/// `s` is the list scene of `n` objects seen through the camera of the
/// given settings.
pub open spec fn spec_is_list_scene(
    s: Scene,
    n: nat,
    image: ImageSettings,
    view: ViewSettings,
    defocus: DefocusSettings,
) -> bool {
    &&& s.world is List
    &&& s.world->List_0.list@.len() == n
    &&& s.world->List_0.spec_wf()
    &&& s.camera == Camera::spec_configure(image, view, defocus)
    &&& s.camera.spec_wf()
}

/// `h` is the resting sphere around `center` with the given radius.
pub open spec fn spec_is_sphere(h: Hittable, center: Point3, radius: Scalar) -> bool {
    &&& h is Sphere
    &&& h->Sphere_0.center.orig == center
    &&& h->Sphere_0.center.dir == Vec3::spec_zero()
    &&& h->Sphere_0.radius == radius.spec_max(Scalar::spec_zero())
}

fn rgb(r: i64, g: i64, b: i64) -> (c: Color)
    ensures
        c == spec_rgb(r as int, g as int, b as int),
{
    Vec3::new(Scalar::from_ratio(r, 100), Scalar::from_ratio(g, 100), Scalar::from_ratio(b, 100))
}

fn v(x: i64, y: i64, z: i64) -> (r: Vec3)
    ensures
        r == spec_v(x as int, y as int, z as int),
{
    Vec3::from_ints(x, y, z)
}

fn image(
    aspect_num: i64,
    aspect_den: i64,
    image_width: i32,
    samples_per_pixel: i32,
    max_depth: i32,
    background: (i64, i64, i64),
) -> (r: ImageSettings)
    ensures
        r == spec_image(
            aspect_num as int,
            aspect_den as int,
            image_width,
            samples_per_pixel,
            max_depth,
            (background.0 as int, background.1 as int, background.2 as int),
        ),
{
    ImageSettings {
        aspect_ratio: Scalar::from_ratio(aspect_num, aspect_den),
        image_width,
        samples_per_pixel,
        max_depth,
        background: rgb(background.0, background.1, background.2),
    }
}

fn view(vfov: i64, look_from: (i64, i64, i64), look_at: (i64, i64, i64)) -> (r: ViewSettings)
    ensures
        r == spec_view(
            vfov as int,
            (look_from.0 as int, look_from.1 as int, look_from.2 as int),
            (look_at.0 as int, look_at.1 as int, look_at.2 as int),
        ),
{
    ViewSettings {
        vfov: Scalar::from_int(vfov),
        look_from: v(look_from.0, look_from.1, look_from.2),
        look_at: v(look_at.0, look_at.1, look_at.2),
        vup: v(0, 1, 0),
    }
}

fn sharp() -> (r: DefocusSettings)
    ensures
        r == spec_sharp(),
{
    DefocusSettings { defocus_angle: Scalar::zero(), focus_dist: Scalar::from_int(10) }
}

fn soft() -> (r: DefocusSettings)
    ensures
        r == spec_soft(),
{
    DefocusSettings { defocus_angle: Scalar::from_ratio(6, 10), focus_dist: Scalar::from_int(10) }
}

/// Settings for an image at most 65535 pixels wide and at least as wide as
/// high, with a sample or more per pixel, are in order.
pub proof fn lemma_settings_in_order(image: ImageSettings)
    requires
        1 <= image.image_width <= 0xffff,
        1 <= image.samples_per_pixel,
        image.aspect_ratio.raw >= 1_000_000,
    ensures
        spec_check(image) is None,
{
    let w = image.image_width as int;
    let a = image.aspect_ratio.raw as int;
    let n = w * 1_000_000 * 1_000_000;
    vstd::arithmetic::div_mod::lemma_div_is_ordered_by_denominator(n, 1_000_000, a);
    vstd::arithmetic::div_mod::lemma_div_pos_is_pos(n, a);
    let q = n / a;
    assert(0 <= q <= w * 1_000_000);
    let h = spec_image_height(image.image_width, image.aspect_ratio);
    assert(h <= w);
    assert(w * h <= 0xffff * 0xffff) by (nonlinear_arith)
        requires
            1 <= w <= 0xffff,
            1 <= h <= w,
    ;
}

/// Sixteen ninths and one are aspect ratios of images at least as wide as high.
pub proof fn lemma_usual_ratios()
    ensures
        Scalar::spec_from_ratio(16, 9).raw == 1_777_777,
        Scalar::spec_from_ratio(1, 1).raw == 1_000_000,
{
    vstd::arithmetic::div_mod::lemma_fundamental_div_mod_converse(
        16_000_000_000_000,
        9_000_000,
        1_777_777,
        7_000_000,
    );
}

/// The camera for settings that are known to be in order.
fn camera(image: ImageSettings, view: ViewSettings, defocus: DefocusSettings) -> (r: Camera)
    requires
        spec_check(image) is None,
    ensures
        r == Camera::spec_configure(image, view, defocus),
        r.spec_wf(),
{
    match Camera::new(image, view, defocus) {
        Ok(c) => c,
        Err(_) => vstd::pervasive::unreached(),
    }
}

fn diffuse(r: i64, g: i64, b: i64) -> (m: Arc<Material>)
    ensures
        *m == Material::Lambertian(Lambertian::spec_new(spec_rgb(r as int, g as int, b as int))),
{
    Arc::new(Material::Lambertian(Lambertian::new(rgb(r, g, b))))
}

fn textured(tex: Texture) -> (m: Arc<Material>)
    ensures
        *m == Material::Lambertian(Lambertian { tex }),
{
    Arc::new(Material::Lambertian(Lambertian::from_texture(tex)))
}

fn glass() -> (m: Arc<Material>)
    ensures
        *m == Material::Dielectric(Dielectric { refraction_index: Scalar::spec_from_ratio(15, 10) }),
{
    Arc::new(Material::Dielectric(Dielectric::new(Scalar::from_ratio(15, 10))))
}

fn metal(albedo: Color, fuzz: Scalar) -> (m: Arc<Material>)
    ensures
        *m == Material::Metal(Metal { albedo, fuzz: Metal::spec_clamp_fuzz(fuzz) }),
{
    Arc::new(Material::Metal(Metal::new(albedo, fuzz)))
}

fn lamp(emit: Color, intensity: i64) -> (m: Arc<Material>)
    ensures
        *m is DiffuseLight,
{
    Arc::new(Material::DiffuseLight(DiffuseLight::from_color(emit, Scalar::from_int(intensity))))
}

fn rect(q: Point3, u: Vec3, v: Vec3, mat: &Arc<Material>) -> (r: Arc<Hittable>)
    ensures
        spec_is_face(*r, q, u, v, **mat),
{
    Arc::new(Hittable::Rect(Quad::new(q, u, v, share(mat))))
}

fn sphere(center: Point3, radius: Scalar, mat: &Arc<Material>) -> (r: Arc<Hittable>)
    ensures
        spec_is_sphere(*r, center, radius),
        *(r->Sphere_0.mat) == **mat,
{
    Arc::new(Hittable::Sphere(Sphere::new(center, radius, share(mat))))
}

/// A box of the given size, turned about the y axis and moved.
fn block(size: Point3, degrees: i64, offset: Vec3, mat: &Arc<Material>) -> (r: Arc<Hittable>)
    ensures
        *r is Translate,
        r->Translate_0.offset == offset,
        r->Translate_0.spec_wf(),
        *r->Translate_0.object is Rotate,
{
    let cube: Arc<Hittable> = Arc::new(
        Hittable::Cube(Cube::new(Vec3::zero(), size, share(mat))),
    );
    let turned: Arc<Hittable> = Arc::new(
        Hittable::Rotate(Rotate::new(cube, Vec3::new(Scalar::zero(), Scalar::from_int(degrees), Scalar::zero()))),
    );
    Arc::new(Hittable::Translate(Translate::new(turned, offset)))
}

/// The five walls and the lamp of the Cornell box, the lamp third.
fn cornell_walls(world: &mut HitList, lamp_q: Point3, lamp_u: Vec3, lamp_v: Vec3, intensity: i64) -> (white:
    Arc<Material>)
    requires
        old(world).list@.len() == 0,
        old(world).spec_wf(),
    ensures
        final(world).list@.len() == 6,
        final(world).spec_wf(),
        *white == Material::Lambertian(Lambertian::spec_new(spec_rgb(73, 73, 73))),
        spec_is_face(
            *final(world).list@[0],
            spec_v(555, 0, 0),
            spec_v(0, 555, 0),
            spec_v(0, 0, 555),
            Material::Lambertian(Lambertian::spec_new(spec_rgb(12, 45, 15))),
        ),
        spec_is_face(
            *final(world).list@[1],
            spec_v(0, 0, 0),
            spec_v(0, 555, 0),
            spec_v(0, 0, 555),
            Material::Lambertian(Lambertian::spec_new(spec_rgb(65, 5, 5))),
        ),
        *final(world).list@[2] is Rect,
        final(world).list@[2]->Rect_0.q == lamp_q,
        final(world).list@[2]->Rect_0.u == lamp_u,
        final(world).list@[2]->Rect_0.v == lamp_v,
        *final(world).list@[2]->Rect_0.mat is DiffuseLight,
        spec_is_face(
            *final(world).list@[3],
            spec_v(0, 0, 0),
            spec_v(555, 0, 0),
            spec_v(0, 0, 555),
            *white,
        ),
        spec_is_face(
            *final(world).list@[4],
            spec_v(555, 555, 555),
            spec_v(-555, 0, 0),
            spec_v(0, 0, -555),
            *white,
        ),
        spec_is_face(
            *final(world).list@[5],
            spec_v(0, 0, 555),
            spec_v(555, 0, 0),
            spec_v(0, 555, 0),
            *white,
        ),
{
    let red: Arc<Material> = diffuse(65, 5, 5);
    let white: Arc<Material> = diffuse(73, 73, 73);
    let green: Arc<Material> = diffuse(12, 45, 15);
    let light: Arc<Material> = lamp(rgb(100, 100, 100), intensity);
    world.push(rect(v(555, 0, 0), v(0, 555, 0), v(0, 0, 555), &green));
    world.push(rect(v(0, 0, 0), v(0, 555, 0), v(0, 0, 555), &red));
    world.push(rect(lamp_q, lamp_u, lamp_v, &light));
    world.push(rect(v(0, 0, 0), v(555, 0, 0), v(0, 0, 555), &white));
    world.push(rect(v(555, 555, 555), v(-555, 0, 0), v(0, 0, -555), &white));
    world.push(rect(v(0, 0, 555), v(555, 0, 0), v(0, 555, 0), &white));
    white
}

/// The Cornell box: a room with a red and a green wall, a lamp in the
/// ceiling and two white blocks.
pub fn cornell_box() -> (s: Scene)
    ensures
        spec_is_list_scene(
            s,
            8,
            spec_image(1, 1, 600, 200, 50, (0, 0, 0)),
            spec_view(40, (278, 278, -800), (278, 278, 0)),
            spec_sharp(),
        ),
        *s.world->List_0.list@[6] is Translate,
        *s.world->List_0.list@[7] is Translate,
{
    let mut world: HitList = HitList::new();
    let white: Arc<Material> = cornell_walls(
        &mut world,
        v(343, 554, 332),
        v(-130, 0, 0),
        v(0, 0, -105),
        15,
    );
    world.push(block(v(165, 330, 165), 15, v(265, 0, 295), &white));
    world.push(block(v(165, 165, 165), -18, v(130, 0, 65), &white));
    let settings: ImageSettings = image(1, 1, 600, 200, 50, (0, 0, 0));
    proof {
        lemma_usual_ratios();
        lemma_settings_in_order(settings);
    }
    let cam: Camera = camera(settings, view(40, (278, 278, -800), (278, 278, 0)), sharp());
    Scene { world: Hittable::List(world), camera: cam }
}

/// The Cornell box with its two blocks turned to smoke, one dark, one light.
pub fn cornell_smoke() -> (s: Scene)
    ensures
        spec_is_list_scene(
            s,
            8,
            spec_image(1, 1, 600, 200, 50, (0, 0, 0)),
            spec_view(40, (278, 278, -800), (278, 278, 0)),
            spec_sharp(),
        ),
        *s.world->List_0.list@[6] is Medium,
        *s.world->List_0.list@[7] is Medium,
{
    let mut world: HitList = HitList::new();
    let white: Arc<Material> = cornell_walls(
        &mut world,
        v(113, 554, 127),
        v(330, 0, 0),
        v(0, 0, 305),
        7,
    );
    let box1: Arc<Hittable> = block(v(165, 330, 165), 15, v(265, 0, 295), &white);
    let box2: Arc<Hittable> = block(v(165, 165, 165), -18, v(130, 0, 65), &white);
    world.push(
        Arc::new(
            Hittable::Medium(
                ConstantMedium::from_color(box1, Scalar::from_ratio(1, 100), rgb(0, 0, 0)),
            ),
        ),
    );
    world.push(
        Arc::new(
            Hittable::Medium(
                ConstantMedium::from_color(box2, Scalar::from_ratio(1, 100), rgb(100, 100, 100)),
            ),
        ),
    );
    let settings: ImageSettings = image(1, 1, 600, 200, 50, (0, 0, 0));
    proof {
        lemma_usual_ratios();
        lemma_settings_in_order(settings);
    }
    let cam: Camera = camera(settings, view(40, (278, 278, -800), (278, 278, 0)), sharp());
    Scene { world: Hittable::List(world), camera: cam }
}

/// Two marbled spheres and a lamp in the dark.
pub fn simple_light(rng: &mut Sampler) -> (s: Scene)
    ensures
        spec_is_list_scene(
            s,
            3,
            spec_image(16, 9, 400, 100, 50, (0, 0, 0)),
            spec_view(20, (26, 3, 6), (0, 2, 0)),
            spec_sharp(),
        ),
        spec_is_sphere(*s.world->List_0.list@[0], spec_v(0, -1000, 0), Scalar::spec_from_int(1000)),
        spec_is_sphere(*s.world->List_0.list@[1], spec_v(0, 2, 0), Scalar::spec_from_int(2)),
        *s.world->List_0.list@[2] is Rect,
{
    let mut world: HitList = HitList::new();
    let ground: Arc<Material> = textured(
        Texture::Noise(NoiseTexture::new(Scalar::from_int(4), rng)),
    );
    let ball: Arc<Material> = textured(Texture::Noise(NoiseTexture::new(Scalar::from_int(4), rng)));
    world.push(sphere(v(0, -1000, 0), Scalar::from_int(1000), &ground));
    world.push(sphere(v(0, 2, 0), Scalar::from_int(2), &ball));
    let difflight: Arc<Material> = lamp(rgb(100, 20, 0), 4);
    world.push(rect(v(3, 1, -2), v(2, 0, 0), v(0, 2, 0), &difflight));
    let settings: ImageSettings = image(16, 9, 400, 100, 50, (0, 0, 0));
    proof {
        lemma_usual_ratios();
        lemma_settings_in_order(settings);
    }
    let cam: Camera = camera(settings, view(20, (26, 3, 6), (0, 2, 0)), sharp());
    Scene { world: Hittable::List(world), camera: cam }
}

/// One red cube under the sky.
pub fn cube() -> (s: Scene)
    ensures
        spec_is_list_scene(
            s,
            1,
            spec_image(1, 1, 400, 100, 50, (70, 80, 100)),
            spec_view(80, (5, 5, 5), (0, 0, 0)),
            spec_sharp(),
        ),
        *s.world->List_0.list@[0] is Cube,
        s.world->List_0.list@[0]->Cube_0.spec_is_box(
            spec_v(-1, -1, -1),
            spec_v(1, 1, 1),
            Material::Lambertian(Lambertian::spec_new(spec_rgb(100, 20, 20))),
        ),
{
    let mut world: HitList = HitList::new();
    let red: Arc<Material> = diffuse(100, 20, 20);
    world.push(Arc::new(Hittable::Cube(Cube::new(v(-1, -1, -1), v(1, 1, 1), red))));
    let settings: ImageSettings = image(1, 1, 400, 100, 50, (70, 80, 100));
    proof {
        lemma_usual_ratios();
        lemma_settings_in_order(settings);
    }
    let cam: Camera = camera(settings, view(80, (5, 5, 5), (0, 0, 0)), sharp());
    Scene { world: Hittable::List(world), camera: cam }
}

/// A disk, a triangle and three rectangles around the line of sight.
pub fn quads() -> (s: Scene)
    ensures
        spec_is_list_scene(
            s,
            5,
            spec_image(1, 1, 400, 100, 50, (70, 80, 100)),
            spec_view(80, (0, 0, 9), (0, 0, 0)),
            spec_sharp(),
        ),
        *s.world->List_0.list@[0] is Disk,
        *s.world->List_0.list@[1] is Tri,
        spec_is_face(
            *s.world->List_0.list@[2],
            spec_v(3, -2, 1),
            spec_v(0, 0, 4),
            spec_v(0, 4, 0),
            Material::Lambertian(Lambertian::spec_new(spec_rgb(20, 20, 100))),
        ),
        spec_is_face(
            *s.world->List_0.list@[3],
            spec_v(-2, 3, 1),
            spec_v(4, 0, 0),
            spec_v(0, 0, 4),
            Material::Lambertian(Lambertian::spec_new(spec_rgb(100, 50, 0))),
        ),
        spec_is_face(
            *s.world->List_0.list@[4],
            spec_v(-2, -3, 5),
            spec_v(4, 0, 0),
            spec_v(0, 0, -4),
            Material::Lambertian(Lambertian::spec_new(spec_rgb(20, 80, 80))),
        ),
{
    let mut world: HitList = HitList::new();
    let left_red: Arc<Material> = diffuse(100, 20, 20);
    let back_green: Arc<Material> = diffuse(20, 100, 20);
    let right_blue: Arc<Material> = diffuse(20, 20, 100);
    let upper_orange: Arc<Material> = diffuse(100, 50, 0);
    let lower_teal: Arc<Material> = diffuse(20, 80, 80);
    world.push(
        Arc::new(Hittable::Disk(Quad::new(v(-3, 0, 3), v(0, 0, -2), v(0, 2, 0), left_red))),
    );
    world.push(
        Arc::new(Hittable::Tri(Quad::new(v(-2, -2, 0), v(4, 0, 0), v(0, 4, 0), back_green))),
    );
    world.push(rect(v(3, -2, 1), v(0, 0, 4), v(0, 4, 0), &right_blue));
    world.push(rect(v(-2, 3, 1), v(4, 0, 0), v(0, 0, 4), &upper_orange));
    world.push(rect(v(-2, -3, 5), v(4, 0, 0), v(0, 0, -4), &lower_teal));
    let settings: ImageSettings = image(1, 1, 400, 100, 50, (70, 80, 100));
    proof {
        lemma_usual_ratios();
        lemma_settings_in_order(settings);
    }
    let cam: Camera = camera(settings, view(80, (0, 0, 9), (0, 0, 0)), sharp());
    Scene { world: Hittable::List(world), camera: cam }
}

/// Two marbled spheres under the sky.
pub fn perlin_spheres(rng: &mut Sampler) -> (s: Scene)
    ensures
        spec_is_list_scene(
            s,
            2,
            spec_image(16, 9, 400, 100, 50, (70, 80, 100)),
            spec_view(20, (13, 2, 3), (0, 0, 0)),
            spec_sharp(),
        ),
        spec_is_sphere(*s.world->List_0.list@[0], spec_v(0, -1000, 0), Scalar::spec_from_int(1000)),
        spec_is_sphere(*s.world->List_0.list@[1], spec_v(0, 2, 0), Scalar::spec_from_int(2)),
{
    let mut world: HitList = HitList::new();
    let ground: Arc<Material> = textured(
        Texture::Noise(NoiseTexture::new(Scalar::from_int(4), rng)),
    );
    let ball: Arc<Material> = textured(Texture::Noise(NoiseTexture::new(Scalar::from_int(4), rng)));
    world.push(sphere(v(0, -1000, 0), Scalar::from_int(1000), &ground));
    world.push(sphere(v(0, 2, 0), Scalar::from_int(2), &ball));
    let settings: ImageSettings = image(16, 9, 400, 100, 50, (70, 80, 100));
    proof {
        lemma_usual_ratios();
        lemma_settings_in_order(settings);
    }
    let cam: Camera = camera(settings, view(20, (13, 2, 3), (0, 0, 0)), sharp());
    Scene { world: Hittable::List(world), camera: cam }
}

/// A globe with the given map on it.
pub fn earth(earth_texture: ImageTexture) -> (s: Scene)
    ensures
        spec_is_sphere(s.world, spec_v(0, 0, 0), Scalar::spec_from_int(2)),
        *s.world->Sphere_0.mat == Material::Lambertian(
            Lambertian { tex: Texture::Image(earth_texture) },
        ),
        s.camera == Camera::spec_configure(
            spec_image(16, 9, 400, 100, 50, (70, 80, 100)),
            spec_view(20, (0, 0, 12), (0, 0, 0)),
            spec_sharp(),
        ),
        s.camera.spec_wf(),
{
    let earth_surface: Arc<Material> = textured(Texture::Image(earth_texture));
    let globe: Sphere = Sphere::new(v(0, 0, 0), Scalar::from_int(2), earth_surface);
    let settings: ImageSettings = image(16, 9, 400, 100, 50, (70, 80, 100));
    proof {
        lemma_usual_ratios();
        lemma_settings_in_order(settings);
    }
    let cam: Camera = camera(settings, view(20, (0, 0, 12), (0, 0, 0)), sharp());
    Scene { world: Hittable::Sphere(globe), camera: cam }
}

/// Two chequered spheres that touch at the origin.
pub fn checkered_spheres() -> (s: Scene)
    ensures
        spec_is_list_scene(
            s,
            2,
            spec_image(16, 9, 400, 100, 50, (70, 80, 100)),
            spec_view(20, (13, 2, 3), (0, 0, 0)),
            spec_sharp(),
        ),
        spec_is_sphere(*s.world->List_0.list@[0], spec_v(0, -10, 0), Scalar::spec_from_int(10)),
        spec_is_sphere(*s.world->List_0.list@[1], spec_v(0, 10, 0), Scalar::spec_from_int(10)),
{
    let mut world: HitList = HitList::new();
    let lower: Arc<Material> = textured(
        Texture::Checker(
            CheckerTexture::from_colors(Scalar::from_ratio(32, 100), rgb(20, 30, 10), rgb(90, 90, 90)),
        ),
    );
    let upper: Arc<Material> = textured(
        Texture::Checker(
            CheckerTexture::from_colors(Scalar::from_ratio(32, 100), rgb(20, 30, 10), rgb(90, 90, 90)),
        ),
    );
    world.push(sphere(v(0, -10, 0), Scalar::from_int(10), &lower));
    world.push(sphere(v(0, 10, 0), Scalar::from_int(10), &upper));
    let settings: ImageSettings = image(16, 9, 400, 100, 50, (70, 80, 100));
    proof {
        lemma_usual_ratios();
        lemma_settings_in_order(settings);
    }
    let cam: Camera = camera(settings, view(20, (13, 2, 3), (0, 0, 0)), sharp());
    Scene { world: Hittable::List(world), camera: cam }
}

/// Adds the field of small random spheres of the two weekend scenes to
/// `world`: one sphere around each point of a grid of 22 x 22, unless it
/// would touch the large sphere at `(4, 0.2, 0)`; four in five are diffuse
/// (and `moving` makes those bounce), three in twenty metal, the rest glass.
fn scatter_spheres(world: &mut HitList, glass: &Arc<Material>, moving: bool, rng: &mut Sampler)
    requires
        old(world).spec_wf(),
        old(world).list@.len() == 1,
    ensures
        final(world).spec_wf(),
        1 <= final(world).list@.len() <= 485,
        final(world).list@[0] == old(world).list@[0],
        final(rng).seed == spec_field(CELLS as nat, moving, **glass, old(rng).seed).1,
        final(world).list@.len() == 1 + spec_field(
            CELLS as nat,
            moving,
            **glass,
            old(rng).seed,
        ).0.len(),
        forall|i: int|
            0 <= i < spec_field(CELLS as nat, moving, **glass, old(rng).seed).0.len()
                ==> #[trigger] spec_bead_at(
                final(world).list@,
                spec_field(CELLS as nat, moving, **glass, old(rng).seed).0,
                i,
            ),
{
    let mut k: i64 = 0;
    while k < CELLS
        invariant
            0 <= k <= CELLS,
            world.spec_wf(),
            world.list@.len() == 1 + spec_field(k as nat, moving, **glass, old(rng).seed).0.len(),
            spec_field(k as nat, moving, **glass, old(rng).seed).0.len() <= k,
            world.list@[0] == old(world).list@[0],
            rng.seed == spec_field(k as nat, moving, **glass, old(rng).seed).1,
            forall|i: int|
                0 <= i < spec_field(k as nat, moving, **glass, old(rng).seed).0.len()
                    ==> #[trigger] spec_bead_at(
                    world.list@,
                    spec_field(k as nat, moving, **glass, old(rng).seed).0,
                    i,
                ),
        decreases CELLS - k,
    {
        let ghost before = world.list@;
        let ghost field = spec_field_of(k as nat, moving, glass, old(rng).seed);
        let ghost grown = spec_field_of((k + 1) as nat, moving, glass, old(rng).seed);
        let ghost cell = spec_cell_of(k as int, moving, glass, rng.seed);
        assert(grown == (match cell.0 {
            Some(d) => (field.0.push(d), cell.1),
            None => (field.0, cell.1),
        }));
        match bead(k, glass, moving, rng) {
            Some(h) => {
                world.push(h);
                proof {
                    assert(world.list@[before.len() as int] == h);
                    assert forall|i: int| 0 <= i < grown.0.len() implies #[trigger] spec_bead_at(
                        world.list@,
                        grown.0,
                        i,
                    ) by {
                        if i < field.0.len() {
                            assert(spec_bead_at(before, field.0, i));
                            assert(world.list@[1 + i] == before[1 + i]);
                            assert(grown.0[i] == field.0[i]);
                        } else {
                            assert(grown.0[i] == cell.0->0);
                        }
                    }
                }
            },
            None => {},
        }
        k = k + 1;
    }
}

/// Number of cells of the grid of small spheres: 22 by 22.
pub const CELLS: i64 = 484;

/// `h` is the small sphere whose centre moves along `center` during the
/// exposure, of material `mat`.
#[verifier::opaque]
pub open spec fn spec_is_bead(h: Arc<Hittable>, center: crate::utility::ray::Ray, mat: Material) -> bool {
    &&& *h is Sphere
    &&& h->Sphere_0.center == center
    &&& h->Sphere_0.radius == Scalar::spec_from_ratio(2, 10).spec_max(Scalar::spec_zero())
    &&& *h->Sphere_0.mat == mat
    &&& h->Sphere_0.spec_wf()
}

/// The object behind the first object of `list` at place `i` is the small
/// sphere that `field` describes at place `i`.
pub open spec fn spec_bead_at(
    list: Seq<Arc<Hittable>>,
    field: Seq<(crate::utility::ray::Ray, Material)>,
    i: int,
) -> bool {
    spec_is_bead(list[1 + i], field[i].0, field[i].1)
}

/// What cell `k` of the grid adds to the field, for the draws that start
/// from `seed`: the way of the centre and the material of its sphere, if it
/// gets one; and the seed left behind.
///
/// The cell lies at `(k / 22 - 11, k % 22 - 11)`. Three numbers are drawn:
/// one that chooses the material, and two that move the centre by up to 0.9
/// along x and z. A centre within 0.9 of `(4, 0.2, 0)` gets no sphere. Else
/// a choice below 0.8 gives a diffuse sphere whose colour is the product of
/// two random colours, and which rises by up to 0.5 during the exposure if
/// `moving`; a choice below 0.95 gives metal of a random colour from
/// `0.5 .. 1` with a fuzz from `0 .. 0.5`; any other gives `glass`.
#[verifier::opaque]
pub open spec fn spec_cell(k: int, moving: bool, glass: Material, seed: u64) -> (
    Option<(crate::utility::ray::Ray, Material)>,
    u64,
) {
    let zero = Scalar::spec_zero();
    let one = Scalar::spec_one();
    let radius = Scalar::spec_from_ratio(2, 10);
    let spread = Scalar::spec_from_ratio(9, 10);
    let half = Scalar::spec_from_ratio(1, 2);
    let choose_mat = spec_uniform(seed);
    let s1 = rng_successor(seed);
    let s2 = rng_successor(s1);
    let s3 = rng_successor(s2);
    let center = Vec3 {
        x: Scalar::spec_from_int((k / 22 - 11) as i64).spec_add(spread.spec_mul(spec_uniform(s1))),
        y: radius,
        z: Scalar::spec_from_int((k % 22 - 11) as i64).spec_add(spread.spec_mul(spec_uniform(s2))),
    };
    let at_rest = crate::utility::ray::Ray::spec_new(center, Vec3::spec_zero());
    if center.spec_sub(Vec3 { x: Scalar::spec_from_int(4), y: radius, z: zero }).spec_len().raw
        > spread.raw {
        if choose_mat.raw < 800_000 {
            let (first, s4) = Vec3::spec_random(s3);
            let (second, s5) = Vec3::spec_random(s4);
            let mat = Material::Lambertian(Lambertian::spec_new(first.spec_mul(second)));
            if moving {
                let center2 = center.spec_add(
                    Vec3 { x: zero, y: spec_random_scalar(s5, zero, half), z: zero },
                );
                (
                    Some((crate::utility::ray::Ray::spec_new(center, center2.spec_sub(center)), mat)),
                    rng_successor(s5),
                )
            } else {
                (Some((at_rest, mat)), s5)
            }
        } else if choose_mat.raw < 950_000 {
            let (albedo, s4) = Vec3::spec_random_bounded(s3, half, one);
            let fuzz = spec_random_scalar(s4, zero, half);
            (
                Some(
                    (at_rest, Material::Metal(Metal { albedo, fuzz: Metal::spec_clamp_fuzz(fuzz) })),
                ),
                rng_successor(s4),
            )
        } else {
            (Some((at_rest, glass)), s3)
        }
    } else {
        (None, s3)
    }
}

/// What the first `n` cells of the grid add to the field, in their order,
/// for the draws that start from `seed`; and the seed left behind.
pub open spec fn spec_field(n: nat, moving: bool, glass: Material, seed: u64) -> (
    Seq<(crate::utility::ray::Ray, Material)>,
    u64,
)
    decreases n,
{
    if n == 0 {
        (Seq::empty(), seed)
    } else {
        let (before, s) = spec_field((n - 1) as nat, moving, glass, seed);
        let (cell, next) = spec_cell(n - 1, moving, glass, s);
        match cell {
            Some(d) => (before.push(d), next),
            None => (before, next),
        }
    }
}

/// The field of the first `n` cells where the glass is the shared `glass`.
pub open spec fn spec_field_of(n: nat, moving: bool, glass: &Arc<Material>, seed: u64) -> (
    Seq<(crate::utility::ray::Ray, Material)>,
    u64,
) {
    spec_field(n, moving, **glass, seed)
}

/// What cell `k` adds where the glass is the shared `glass`.
pub open spec fn spec_cell_of(k: int, moving: bool, glass: &Arc<Material>, seed: u64) -> (
    Option<(crate::utility::ray::Ray, Material)>,
    u64,
) {
    spec_cell(k, moving, **glass, seed)
}

/// The small sphere of cell `k` of the grid, if the cell gets one.
fn bead(k: i64, glass: &Arc<Material>, moving: bool, rng: &mut Sampler) -> (r: Option<
    Arc<Hittable>,
>)
    requires
        0 <= k < CELLS,
    ensures
        final(rng).seed == spec_cell(k as int, moving, **glass, old(rng).seed).1,
        match (r, spec_cell(k as int, moving, **glass, old(rng).seed).0) {
            (Some(h), Some(d)) => spec_is_bead(h, d.0, d.1),
            (None, None) => true,
            _ => false,
        },
{
    proof {
        reveal(spec_cell);
        reveal(spec_is_bead);
    }
    let zero: Scalar = Scalar::zero();
    let radius: Scalar = Scalar::from_ratio(2, 10);
    let spread: Scalar = Scalar::from_ratio(9, 10);
    let half: Scalar = Scalar::from_ratio(1, 2);
    let choose_mat: Scalar = rng.uniform();
    let center: Point3 = Vec3::new(
        Scalar::from_int(k / 22 - 11).add(spread.mul(rng.uniform())),
        radius,
        Scalar::from_int(k % 22 - 11).add(spread.mul(rng.uniform())),
    );
    if center.sub(Vec3::new(Scalar::from_int(4), radius, zero)).len().raw > spread.raw {
        if choose_mat.raw < 800_000 {
            let first: Color = Vec3::random(rng);
            let second: Color = Vec3::random(rng);
            let sphere_material: Arc<Material> = Arc::new(
                Material::Lambertian(Lambertian::new(first.mul(second))),
            );
            if moving {
                let center2: Point3 = center.add(
                    Vec3::new(zero, random_scalar(rng, zero, half), zero),
                );
                Some(
                    Arc::new(
                        Hittable::Sphere(
                            Sphere::new_animated(center, center2, radius, sphere_material),
                        ),
                    ),
                )
            } else {
                Some(Arc::new(Hittable::Sphere(Sphere::new(center, radius, sphere_material))))
            }
        } else if choose_mat.raw < 950_000 {
            let albedo: Color = Vec3::random_bounded(rng, half, Scalar::one());
            let fuzz: Scalar = random_scalar(rng, zero, half);
            Some(Arc::new(Hittable::Sphere(Sphere::new(center, radius, metal(albedo, fuzz)))))
        } else {
            Some(Arc::new(Hittable::Sphere(Sphere::new(center, radius, share(glass)))))
        }
    } else {
        None
    }
}

/// The three large spheres of the two weekend scenes: glass, diffuse, metal.
fn large_spheres(world: &mut HitList, glass: &Arc<Material>)
    requires
        old(world).spec_wf(),
    ensures
        final(world).spec_wf(),
        final(world).list@.len() == old(world).list@.len() + 3,
{
    world.push(sphere(v(0, 1, 0), Scalar::one(), glass));
    world.push(sphere(v(-4, 1, 0), Scalar::one(), &diffuse(40, 20, 10)));
    world.push(sphere(v(4, 1, 0), Scalar::one(), &metal(rgb(70, 60, 50), Scalar::zero())));
}

/// A field of small random spheres around three large ones, in fine detail.
pub fn weekend_final(rng: &mut Sampler) -> (s: Scene)
    ensures
        s.world is List,
        4 <= s.world->List_0.list@.len() <= 488,
        s.world->List_0.spec_wf(),
        s.camera == Camera::spec_configure(
            spec_image(16, 9, 1200, 500, 50, (70, 80, 100)),
            spec_view(20, (13, 2, 3), (0, 0, 0)),
            spec_soft(),
        ),
        s.camera.spec_wf(),
{
    let settings: ImageSettings = image(16, 9, 1200, 500, 50, (70, 80, 100));
    proof {
        lemma_usual_ratios();
        lemma_settings_in_order(settings);
    }
    let cam: Camera = camera(settings, view(20, (13, 2, 3), (0, 0, 0)), soft());
    let mut world: HitList = HitList::new();
    world.push(sphere(v(0, -1000, 0), Scalar::from_int(1000), &diffuse(50, 50, 50)));
    let glass: Arc<Material> = glass();
    scatter_spheres(&mut world, &glass, false, rng);
    large_spheres(&mut world, &glass);
    Scene { world: Hittable::List(world), camera: cam }
}

/// The field of spheres on a chequered ground, the diffuse ones bouncing,
/// under a tree of boxes.
pub fn bouncing_spheres(rng: &mut Sampler) -> (s: Scene)
    ensures
        s.world is Bvh,
        s.camera == Camera::spec_configure(
            spec_image(16, 9, 400, 100, 50, (70, 80, 100)),
            spec_view(20, (13, 2, 3), (0, 0, 0)),
            spec_soft(),
        ),
        s.camera.spec_wf(),
{
    let settings: ImageSettings = image(16, 9, 400, 100, 50, (70, 80, 100));
    proof {
        lemma_usual_ratios();
        lemma_settings_in_order(settings);
    }
    let cam: Camera = camera(settings, view(20, (13, 2, 3), (0, 0, 0)), soft());
    let mut world: HitList = HitList::new();
    let ground: Arc<Material> = textured(
        Texture::Checker(
            CheckerTexture::from_colors(Scalar::from_ratio(32, 100), rgb(20, 30, 10), rgb(90, 90, 90)),
        ),
    );
    world.push(sphere(v(0, -1000, 0), Scalar::from_int(1000), &ground));
    let glass: Arc<Material> = glass();
    scatter_spheres(&mut world, &glass, true, rng);
    large_spheres(&mut world, &glass);
    Scene { world: Hittable::Bvh(BvhNode::from_hitlist(world)), camera: cam }
}

/// Four hundred boxes of random height as the ground, as a tree.
fn ground_boxes(rng: &mut Sampler) -> (r: Arc<Hittable>)
    ensures
        *r is Bvh,
{
    let mut boxes1: HitList = HitList::new();
    let ground: Arc<Material> = diffuse(48, 83, 53);
    let mut i: i64 = 0;
    while i < 20
        invariant
            0 <= i <= 20,
            boxes1.list@.len() == i * 20,
        decreases 20 - i,
    {
        let mut j: i64 = 0;
        while j < 20
            invariant
                0 <= i < 20,
                0 <= j <= 20,
                boxes1.list@.len() == i * 20 + j,
            decreases 20 - j,
        {
            let x0: i64 = -1000 + i * 100;
            let z0: i64 = -1000 + j * 100;
            let y1: Scalar = random_scalar(rng, Scalar::one(), Scalar::from_int(101));
            boxes1.push(
                Arc::new(
                    Hittable::Cube(
                        Cube::new(
                            v(x0, 0, z0),
                            Vec3::new(Scalar::from_int(x0 + 100), y1, Scalar::from_int(z0 + 100)),
                            share(&ground),
                        ),
                    ),
                ),
            );
            j = j + 1;
        }
        i = i + 1;
    }
    Arc::new(Hittable::Bvh(BvhNode::from_hitlist(boxes1)))
}

/// A thousand small white spheres at random in a cube of side 165, as a
/// tree, turned and moved into place.
fn sphere_cloud(rng: &mut Sampler) -> (r: Arc<Hittable>)
    ensures
        *r is Translate,
{
    let mut boxes2: HitList = HitList::new();
    let white: Arc<Material> = diffuse(73, 73, 73);
    let mut j: i64 = 0;
    while j < 1000
        invariant
            0 <= j <= 1000,
            boxes2.list@.len() == j,
        decreases 1000 - j,
    {
        let center: Point3 = Vec3::random_bounded(rng, Scalar::zero(), Scalar::from_int(165));
        boxes2.push(sphere(center, Scalar::from_int(10), &white));
        j = j + 1;
    }
    let tree: Arc<Hittable> = Arc::new(Hittable::Bvh(BvhNode::from_hitlist(boxes2)));
    let turned: Arc<Hittable> = Arc::new(Hittable::Rotate(Rotate::new(tree, v(0, 15, 0))));
    Arc::new(Hittable::Translate(Translate::new(turned, v(-100, 270, 395))))
}

/// Every kind of object in one scene: a ground of boxes, a lamp, a moving
/// sphere, glass and metal, two volumes of mist, a globe with the given map,
/// a marbled sphere and a cloud of small spheres.
pub fn next_week_final(
    image_width: i32,
    samples_per_pixel: i32,
    max_depth: i32,
    earth_texture: ImageTexture,
    rng: &mut Sampler,
) -> (r: Result<Scene, CameraError>)
    ensures
        match r {
            Ok(s) => spec_check(
                spec_image(1, 1, image_width, samples_per_pixel, max_depth, (0, 0, 0)),
            ) is None && spec_is_list_scene(
                s,
                11,
                spec_image(1, 1, image_width, samples_per_pixel, max_depth, (0, 0, 0)),
                spec_view(40, (478, 278, -600), (278, 278, 0)),
                spec_sharp(),
            ),
            Err(e) => spec_check(
                spec_image(1, 1, image_width, samples_per_pixel, max_depth, (0, 0, 0)),
            ) == Some(e) && final(rng).seed == old(rng).seed,
        },
{
    let cam: Camera = match Camera::new(
        image(1, 1, image_width, samples_per_pixel, max_depth, (0, 0, 0)),
        view(40, (478, 278, -600), (278, 278, 0)),
        sharp(),
    ) {
        Ok(c) => c,
        Err(e) => {
            return Err(e);
        },
    };
    let mut world: HitList = HitList::new();
    world.push(ground_boxes(rng));
    let light: Arc<Material> = lamp(rgb(100, 100, 100), 7);
    world.push(rect(v(123, 554, 147), v(300, 0, 0), v(0, 0, 265), &light));
    let center1: Point3 = v(400, 400, 200);
    let center2: Point3 = center1.add(v(30, 0, 0));
    world.push(
        Arc::new(
            Hittable::Sphere(
                Sphere::new_animated(center1, center2, Scalar::from_int(50), diffuse(70, 30, 10)),
            ),
        ),
    );
    let glass: Arc<Material> = glass();
    world.push(sphere(v(260, 150, 45), Scalar::from_int(50), &glass));
    world.push(
        sphere(v(0, 150, 145), Scalar::from_int(50), &metal(rgb(80, 80, 90), Scalar::one())),
    );
    let boundary: Arc<Hittable> = sphere(v(360, 150, 145), Scalar::from_int(70), &glass);
    world.push(share(&boundary));
    world.push(
        Arc::new(
            Hittable::Medium(
                ConstantMedium::from_color(boundary, Scalar::from_ratio(2, 10), rgb(20, 40, 90)),
            ),
        ),
    );
    let mist: Arc<Hittable> = sphere(v(0, 0, 0), Scalar::from_int(5000), &glass);
    world.push(
        Arc::new(
            Hittable::Medium(
                ConstantMedium::from_color(mist, Scalar::from_ratio(1, 10000), rgb(100, 100, 100)),
            ),
        ),
    );
    world.push(
        sphere(v(400, 200, 400), Scalar::from_int(100), &textured(Texture::Image(earth_texture))),
    );
    let pertext: Texture = Texture::Noise(NoiseTexture::new(Scalar::from_ratio(2, 10), rng));
    world.push(sphere(v(220, 280, 300), Scalar::from_int(80), &textured(pertext)));
    world.push(sphere_cloud(rng));
    Ok(Scene { world: Hittable::List(world), camera: cam })
}

/// Whether the point `(x, y)` lies inside the unit circle.
pub open spec fn spec_inside(x: Scalar, y: Scalar) -> bool {
    x.spec_square().spec_add(y.spec_square()).raw < 1_000_000
}

/// Darts thrown at the square `-1 .. 1`, two for each of the first `k`
/// cells of a grid of `n` by `n`, taken row by row: one anywhere in the
/// square and one inside the cell. Gives how many of the first and how many
/// of the second kind fell inside the unit circle, and the seed left behind.
pub open spec fn spec_darts(k: nat, n: int, seed: u64) -> (int, int, u64)
    decreases k,
{
    if k == 0 || n <= 0 {
        (0, 0, seed)
    } else {
        let (plain, stratified, s0) = spec_darts((k - 1) as nat, n, seed);
        let cell = (k - 1) as int;
        let one = Scalar::spec_one();
        let two = Scalar::spec_from_int(2);
        let s1 = rng_successor(s0);
        let s2 = rng_successor(s1);
        let s3 = rng_successor(s2);
        let x = spec_random_scalar(s0, one.spec_neg(), one);
        let y = spec_random_scalar(s1, one.spec_neg(), one);
        let xs = two.spec_mul(
            Scalar::spec_from_int((cell / n) as i64).spec_add(spec_uniform(s2)).spec_div(
                Scalar::spec_from_int(n as i64),
            ),
        ).spec_sub(one);
        let ys = two.spec_mul(
            Scalar::spec_from_int((cell % n) as i64).spec_add(spec_uniform(s3)).spec_div(
                Scalar::spec_from_int(n as i64),
            ),
        ).spec_sub(one);
        (
            if spec_inside(x, y) {
                plain + 1
            } else {
                plain
            },
            if spec_inside(xs, ys) {
                stratified + 1
            } else {
                stratified
            },
            rng_successor(s3),
        )
    }
}

fn inside(x: Scalar, y: Scalar) -> (r: bool)
    ensures
        r == spec_inside(x, y),
{
    x.square().add(y.square()).raw < 1_000_000
}

/// Throws two darts for each cell of a grid of `n` by `n` over the square
/// `-1 .. 1`, one anywhere and one inside the cell, and counts those of
/// either kind that fall inside the unit circle. Four times a count over
/// `n * n` estimates pi; the second estimate is the steadier one.
pub fn monte_carlo(n: u32, rng: &mut Sampler) -> (r: (u64, u64))
    ensures
        (r.0 as int, r.1 as int, final(rng).seed) == spec_darts(
            (n * n) as nat,
            n as int,
            old(rng).seed,
        ),
        r.0 <= n * n,
        r.1 <= n * n,
{
    assert(n * n <= 0xffff_ffff * 0xffff_ffff) by (nonlinear_arith)
        requires
            0 <= n <= 0xffff_ffff,
    ;
    let cells: u64 = (n as u64) * (n as u64);
    let one: Scalar = Scalar::one();
    let two: Scalar = Scalar::from_int(2);
    let mut inside_circle: u64 = 0;
    let mut inside_circle_stratified: u64 = 0;
    let mut k: u64 = 0;
    while k < cells
        invariant
            0 <= k <= cells,
            cells == n * n,
            inside_circle <= k,
            inside_circle_stratified <= k,
            one == Scalar::spec_one(),
            two == Scalar::spec_from_int(2),
            (inside_circle as int, inside_circle_stratified as int, rng.seed) == spec_darts(
                k as nat,
                n as int,
                old(rng).seed,
            ),
        decreases cells - k,
    {
        assert(n > 0) by (nonlinear_arith)
            requires
                0 <= k < n * n,
                0 <= n,
        ;
        let i: u64 = k / (n as u64);
        let j: u64 = k % (n as u64);
        assert(i < n) by (nonlinear_arith)
            requires
                0 <= k < n * n,
                n > 0,
                i == (k as int) / (n as int),
        ;
        let x: Scalar = random_scalar(rng, one.neg(), one);
        let y: Scalar = random_scalar(rng, one.neg(), one);
        if inside(x, y) {
            inside_circle = inside_circle + 1;
        }
        let xs: Scalar = two.mul(
            Scalar::from_int(i as i64).add(rng.uniform()).div(Scalar::from_int(n as i64)),
        ).sub(one);
        let ys: Scalar = two.mul(
            Scalar::from_int(j as i64).add(rng.uniform()).div(Scalar::from_int(n as i64)),
        ).sub(one);
        if inside(xs, ys) {
            inside_circle_stratified = inside_circle_stratified + 1;
        }
        k = k + 1;
    }
    (inside_circle, inside_circle_stratified)
}

impl Scene {
    /// The image of the scene, for the seed `seed`.
    pub fn render(&self, seed: u64) -> (r: PPM)
        requires
            self.camera.spec_wf(),
        ensures
            r.cols == self.camera.image_width,
            r.rows == self.camera.image_height,
            r.spec_wf(),
            forall|row: usize, col: usize|
                row < r.rows && col < r.cols ==> #[trigger] r.values@[row * r.cols + col]
                    == self.camera.spec_pixel(self.world, row, col, seed),
    {
        self.camera.render(&self.world, seed)
    }
}

} // verus!
