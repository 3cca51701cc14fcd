use ray_tracing::figures::camera::{
    lerp, Camera, CameraError, DefocusSettings, ImageSettings, ViewSettings,
};
use ray_tracing::figures::hittable::Hittable;
use ray_tracing::figures::hittable_list::HitList;
use ray_tracing::figures::quad::Quad;
use ray_tracing::figures::sphere::Sphere;
use ray_tracing::materials::emissive::DiffuseLight;
use ray_tracing::materials::lambertian::Lambertian;
use ray_tracing::materials::material::Material;
use ray_tracing::materials::metal::Metal;
use ray_tracing::utility::ray::Ray;
use ray_tracing::utility::scalar::Scalar;
use ray_tracing::utility::utils::Sampler;
use ray_tracing::utility::vec3::Vec3;
use std::sync::Arc;

fn s(x: f64) -> Scalar {
    Scalar::from_raw((x * 1e6).round() as i64)
}

fn f(x: Scalar) -> f64 {
    x.raw as f64 / 1e6
}

fn vec(x: f64, y: f64, z: f64) -> Vec3 {
    Vec3::new(s(x), s(y), s(z))
}

fn settings(width: i32, spp: i32, depth: i32) -> ImageSettings {
    ImageSettings {
        aspect_ratio: Scalar::from_ratio(16, 9),
        image_width: width,
        samples_per_pixel: spp,
        max_depth: depth,
        background: vec(0.7, 0.8, 1.0),
    }
}

fn camera(width: i32, spp: i32, depth: i32) -> Camera {
    Camera::new(settings(width, spp, depth), ViewSettings::default(), DefocusSettings::default())
        .expect("the settings are in order")
}

fn two_spheres() -> Hittable {
    let mut world = HitList::new();
    let grey = Arc::new(Material::Lambertian(Lambertian::new(vec(0.5, 0.5, 0.5))));
    world.push(Arc::new(Hittable::Sphere(Sphere::new(vec(0., 0., -1.), s(0.5), Arc::clone(&grey)))));
    world.push(Arc::new(Hittable::Sphere(Sphere::new(vec(0., -100.5, -1.), s(100.), grey))));
    Hittable::List(world)
}

#[test]
fn default_settings() {
    let image = ImageSettings::default();
    assert_eq!(image.aspect_ratio.raw, 1_777_777);
    assert_eq!(image.image_width, 400);
    assert_eq!(image.samples_per_pixel, 100);
    assert_eq!(image.max_depth, 50);
    assert_eq!(image.background, vec(0.7, 0.8, 1.0));
    let view = ViewSettings::default();
    assert_eq!(view.vfov, s(90.));
    assert_eq!(view.look_from, vec(0., 0., 0.));
    assert_eq!(view.look_at, vec(0., 0., -1.));
    assert_eq!(view.vup, vec(0., 1., 0.));
    let defocus = DefocusSettings::default();
    assert_eq!(defocus.defocus_angle, s(0.));
    assert_eq!(defocus.focus_dist, s(10.));
    let cam = Camera::default();
    assert_eq!((cam.image_width, cam.image_height), (400, 225));
    assert_eq!(cam, camera(400, 100, 50));
}

#[test]
fn camera_rejects_settings_out_of_order() {
    let view = ViewSettings::default;
    let defocus = DefocusSettings::default;
    assert_eq!(Camera::new(settings(0, 1, 1), view(), defocus()), Err(CameraError::ImageWidth));
    assert_eq!(Camera::new(settings(-5, 0, 1), view(), defocus()), Err(CameraError::ImageWidth));
    assert_eq!(Camera::new(settings(10, 0, 1), view(), defocus()), Err(CameraError::SamplesPerPixel));
    assert_eq!(Camera::new(settings(10, -1, 1), view(), defocus()), Err(CameraError::SamplesPerPixel));
    let mut flat = settings(10, 1, 1);
    flat.aspect_ratio = s(0.);
    assert_eq!(Camera::new(flat, view(), defocus()), Err(CameraError::AspectRatio));
    let mut negative = settings(10, 1, 1);
    negative.aspect_ratio = s(-2.);
    assert_eq!(Camera::new(negative, view(), defocus()), Err(CameraError::AspectRatio));
    let mut huge = settings(100_000, 1, 1);
    huge.aspect_ratio = s(1.);
    assert_eq!(Camera::new(huge, view(), defocus()), Err(CameraError::ImageSize));
    assert!(Camera::new(settings(1, 1, 0), view(), defocus()).is_ok());
    assert!(Camera::new(settings(1, 1, -3), view(), defocus()).is_ok());
}

#[test]
fn camera_derives_its_frame() {
    let cam = camera(400, 100, 50);
    assert_eq!(cam.image_height, 225);
    assert_eq!(cam.sqrt_spp, 10);
    assert_eq!(cam.recip_sqrt_spp, s(0.1));
    assert_eq!(cam.pixel_samples_scale, s(0.01));
    assert_eq!(cam.center, vec(0., 0., 0.));
    assert_eq!(cam.w, vec(0., 0., 1.));
    assert_eq!(cam.u, vec(1., 0., 0.));
    assert_eq!(cam.v, vec(0., 1., 0.));
    assert!((f(cam.pixel_delta_u.x) - 20. * 400. / 225. / 400.).abs() < 1e-5);
    assert!((f(cam.pixel_delta_v.y) + 20. / 225.).abs() < 1e-5);
    assert!((f(cam.pixel00_loc.z) + 10.).abs() < 1e-5);
    assert!(f(cam.pixel00_loc.x) < 0. && f(cam.pixel00_loc.y) > 0.);
    let narrow = camera(1, 1, 1);
    assert_eq!(narrow.image_height, 1);
    let odd = camera(400, 200, 50);
    assert_eq!(odd.sqrt_spp, 14);
    assert_eq!(odd.pixel_samples_scale, Scalar::from_ratio(1, 196));
    assert_eq!(odd.samples_per_pixel, 200);
}

#[test]
fn rays_pass_through_their_pixel() {
    let cam = camera(400, 1, 1);
    let mut rng = Sampler::new(3);
    for (i, j) in [(0, 0), (399, 0), (0, 224), (200, 112), (37, 190)] {
        let ray = cam.get_ray(i, j, 0, 0, &mut rng);
        assert_eq!(ray.orig, cam.center);
        assert!(0 <= ray.time.raw && ray.time.raw < 1_000_000);
        let on_plane = ray.at(s(1.));
        let centre = cam
            .pixel00_loc
            .add(cam.pixel_delta_u.scale(Scalar::from_int(i as i64)))
            .add(cam.pixel_delta_v.scale(Scalar::from_int(j as i64)));
        assert!((f(on_plane.x) - f(centre.x)).abs() <= f(cam.pixel_delta_u.x) / 2. + 1e-5);
        assert!((f(on_plane.y) - f(centre.y)).abs() <= -f(cam.pixel_delta_v.y) / 2. + 1e-5);
        assert!((f(on_plane.z) + 10.).abs() < 1e-5);
    }
    let grid = camera(400, 16, 1);
    for s_j in 0..4 {
        for s_i in 0..4 {
            let offset = grid.sample_square_stratified(s_i, s_j, &mut rng);
            assert!(-0.5 + 0.25 * s_i as f64 - 1e-6 <= f(offset.x));
            assert!(f(offset.x) < -0.5 + 0.25 * (s_i + 1) as f64);
            assert!(-0.5 + 0.25 * s_j as f64 - 1e-6 <= f(offset.y));
            assert!(f(offset.y) < -0.5 + 0.25 * (s_j + 1) as f64);
            assert_eq!(offset.z, s(0.));
        }
    }
    let square = Camera::sample_square(&mut rng);
    assert!(f(square.x).abs() <= 0.5 && f(square.y).abs() <= 0.5 && square.z == s(0.));
}

#[test]
fn defocus_moves_the_origin_onto_the_lens() {
    let soft = Camera::new(
        settings(400, 1, 1),
        ViewSettings::default(),
        DefocusSettings { defocus_angle: s(10.), focus_dist: s(10.) },
    )
    .expect("the settings are in order");
    let radius = 10. * 5.0f64.to_radians().tan();
    assert!((f(soft.defocus_disk_u.x) - radius).abs() < 1e-4);
    assert!((f(soft.defocus_disk_v.y) - radius).abs() < 1e-4);
    let mut rng = Sampler::new(12);
    let mut moved = 0;
    for _ in 0..100 {
        let ray = soft.get_ray(200, 112, 0, 0, &mut rng);
        assert_eq!(ray.orig.z, s(0.));
        assert!(f(ray.orig.x).powi(2) + f(ray.orig.y).powi(2) <= radius * radius + 1e-4);
        if ray.orig != soft.center {
            moved += 1;
        }
        let p = soft.defocus_disk_sample(&mut rng);
        assert!(f(p.x).powi(2) + f(p.y).powi(2) <= radius * radius + 1e-4);
    }
    assert!(moved > 90);
}

#[test]
fn ray_color_at_depth_zero_is_black() {
    let cam = camera(400, 1, 50);
    let world = two_spheres();
    let lamp = Hittable::Rect(Quad::new(
        vec(-5., -5., -2.),
        vec(10., 0., 0.),
        vec(0., 10., 0.),
        Arc::new(Material::DiffuseLight(DiffuseLight::from_color(vec(1., 1., 1.), s(9.)))),
    ));
    let empty = Hittable::List(HitList::new());
    let mut rng = Sampler::new(6);
    for world in [&world, &lamp, &empty] {
        for depth in [0, -1, i32::MIN] {
            for _ in 0..20 {
                let ray = Ray::new(
                    Vec3::random_bounded(&mut rng, s(-2.), s(2.)),
                    Vec3::random_bounded(&mut rng, s(-1.), s(1.)),
                );
                let before = rng;
                assert_eq!(cam.ray_color(&ray, depth, world, &mut rng), Vec3::zero());
                assert_eq!(rng, before);
            }
        }
    }
}

#[test]
fn ray_color_adds_emission_and_scattered_light() {
    let cam = camera(400, 1, 50);
    let mut rng = Sampler::new(6);
    let miss = Ray::new(vec(0., 0., 0.), vec(0., 1., 0.));
    assert_eq!(cam.ray_color(&miss, 5, &two_spheres(), &mut rng), vec(0.7, 0.8, 1.0));
    let lamp = Hittable::Rect(Quad::new(
        vec(-5., -5., -2.),
        vec(10., 0., 0.),
        vec(0., 10., 0.),
        Arc::new(Material::DiffuseLight(DiffuseLight::from_color(vec(1., 1., 1.), s(9.)))),
    ));
    let at_lamp = Ray::new(vec(0., 0., 0.), vec(0., 0., -1.));
    assert_eq!(cam.ray_color(&at_lamp, 1, &lamp, &mut rng), vec(9., 9., 9.));
    let from_behind = Ray::new(vec(0., 0., -4.), vec(0., 0., 1.));
    assert_eq!(cam.ray_color(&from_behind, 1, &lamp, &mut rng), Vec3::zero());
    let mirror = Hittable::Sphere(Sphere::new(
        vec(0., 0., -3.),
        s(1.),
        Arc::new(Material::Metal(Metal::new(vec(0.5, 0.25, 1.0), s(0.)))),
    ));
    let at_mirror = Ray::new(vec(0., 0., 0.), vec(0., 0., -1.));
    assert_eq!(cam.ray_color(&at_mirror, 2, &mirror, &mut rng), vec(0.35, 0.2, 1.0));
    assert_eq!(cam.ray_color(&at_mirror, 1, &mirror, &mut rng), Vec3::zero());
}

#[test]
fn end_to_end_two_spheres() {
    let cam = camera(400, 1, 1);
    assert_eq!((cam.image_width, cam.image_height), (400, 225));
    let world = two_spheres();
    let image = cam.render(&world, 1);
    assert_eq!((image.cols, image.rows, image.max_color), (400, 225, 255));
    assert_eq!(image.values.len(), 400 * 225);
    let background = vec(0.7, 0.8, 1.0);
    for row in 0..30 {
        for col in 0..400 {
            assert_eq!(image.values[row * 400 + col], background, "row {} col {}", row, col);
        }
    }
    let centre = image.values[112 * 400 + 200];
    assert_ne!(centre, background);
    assert_eq!(centre, Vec3::zero());
    assert_eq!(image.values[224 * 400 + 200], Vec3::zero());
    let again = cam.render(&world, 1);
    assert_eq!(image.values, again.values);
    assert_eq!(cam.pixel(&world, 112, 200, 1), centre);
    assert_eq!(cam.pixel(&world, 3, 7, 1), background);
}

#[test]
fn deeper_renders_gather_light_and_depend_on_the_seed() {
    let cam = camera(40, 4, 8);
    let world = two_spheres();
    let a = cam.render(&world, 10);
    let b = cam.render(&world, 10);
    let c = cam.render(&world, 11);
    assert_eq!(a.values, b.values);
    assert_ne!(a.values, c.values);
    let centre = a.values[11 * 40 + 20];
    assert_ne!(centre, Vec3::zero());
    assert!(centre.x.raw > 0 && centre.x.raw < 700_000);
    assert!(centre.z.raw >= centre.x.raw);
    let mut rng = Sampler::new(10 + (11 * 40 + 20));
    assert_eq!(cam.pixel_color(&world, 20, 11, &mut rng), centre);
}

#[test]
fn lerp_blends() {
    let white = vec(1., 1., 1.);
    let blue = vec(0.5, 0.7, 1.0);
    assert_eq!(lerp(white, blue, s(0.)), white);
    assert_eq!(lerp(white, blue, s(1.)), blue);
    assert_eq!(lerp(white, blue, s(0.5)), vec(0.75, 0.85, 1.0));
}
