use ray_tracing::figures::hittable::HitRecord;
use ray_tracing::materials::dielectric::{reflectance, Dielectric};
use ray_tracing::materials::emissive::DiffuseLight;
use ray_tracing::materials::isotropic::Isotropic;
use ray_tracing::materials::lambertian::Lambertian;
use ray_tracing::materials::material::{default_material, Material};
use ray_tracing::materials::metal::Metal;
use ray_tracing::materials::pdf::{CosinePdf, Pdf, SpherePdf};
use ray_tracing::textures::checker::CheckerTexture;
use ray_tracing::textures::texture::{SolidColor, Texture};
use ray_tracing::utility::ray::Ray;
use ray_tracing::utility::scalar::Scalar;
use ray_tracing::utility::utils::Sampler;
use ray_tracing::utility::vec3::Vec3;
use std::sync::Arc;

fn s(x: f64) -> Scalar {
    Scalar::from_raw((x * 1e6).round() as i64)
}

fn f(x: Scalar) -> f64 {
    x.raw as f64 / 1e6
}

fn vec(x: f64, y: f64, z: f64) -> Vec3 {
    Vec3::new(s(x), s(y), s(z))
}

fn record(normal: Vec3, front_face: bool) -> HitRecord {
    HitRecord {
        p: vec(1., 2., 3.),
        normal,
        material: Arc::new(Material::Lambertian(default_material())),
        t: s(1.),
        u: s(0.25),
        v: s(0.75),
        front_face,
    }
}

fn in_unit_range(c: Vec3) -> bool {
    [c.x, c.y, c.z].iter().all(|k| 0 <= k.raw && k.raw <= 1_000_000)
}

#[test]
fn lambertian_attenuation_stays_in_range() {
    let textures = [
        Texture::Solid(SolidColor::new(vec(0.2, 1.0, 0.0))),
        Texture::Checker(CheckerTexture::from_colors(s(0.32), vec(0.2, 0.3, 0.1), vec(0.9, 0.9, 0.9))),
    ];
    let mut rng = Sampler::new(4);
    for tex in textures {
        let m = Lambertian::from_texture(tex);
        for k in 0..200 {
            let ray = Ray::new(vec(0., 0., 0.), Vec3::random_bounded(&mut rng, s(-5.), s(5.)));
            let mut rec = record(Vec3::random_unit_vec(&mut rng), k % 2 == 0);
            rec.p = Vec3::random_bounded(&mut rng, s(-50.), s(50.));
            let sr = m.scatter(&ray, &rec, &mut rng).expect("diffuse surfaces always scatter");
            assert!(in_unit_range(sr.attenuation));
            assert_eq!(sr.ray.orig, rec.p);
            assert!(sr.pdf.raw >= 0);
        }
    }
}

#[test]
fn lambertian_scatters_along_normal_plus_sample() {
    let m = Lambertian::new(vec(0.1, 0.2, 0.3));
    let ray = Ray::with_time(vec(0., 5., 0.), vec(0., -1., 0.), s(0.5));
    let rec = record(vec(0., 1., 0.), true);
    let sr = m.scatter_with(&ray, &rec, vec(1., 0., 0.));
    assert_eq!(sr.ray, Ray::with_time(vec(1., 2., 3.), vec(1., 1., 0.), s(0.5)));
    assert_eq!(sr.attenuation, vec(0.1, 0.2, 0.3));
    assert!((f(sr.pdf) - (0.5f64).sqrt() / std::f64::consts::PI).abs() < 1e-5);
    let degenerate = m.scatter_with(&ray, &rec, vec(0., -1., 0.));
    assert_eq!(degenerate.ray.dir, vec(0., 1., 0.));
    let mut rng = Sampler::new(9);
    let mut twin = Sampler::new(9);
    let sample = Vec3::random_unit_vec(&mut twin);
    assert_eq!(m.scatter(&ray, &rec, &mut rng), Some(m.scatter_with(&ray, &rec, sample)));
    assert_eq!(rng, twin);
}

#[test]
fn metal_fuzz_outside_the_unit_interval_becomes_one() {
    assert_eq!(Metal::new(vec(1., 1., 1.), s(0.3)).fuzz, s(0.3));
    assert_eq!(Metal::new(vec(1., 1., 1.), s(0.0)).fuzz, s(0.0));
    assert_eq!(Metal::new(vec(1., 1., 1.), s(1.0)).fuzz, s(1.0));
    assert_eq!(Metal::new(vec(1., 1., 1.), s(1.000001)).fuzz, s(1.0));
    assert_eq!(Metal::new(vec(1., 1., 1.), s(-0.000001)).fuzz, s(1.0));
    assert_eq!(Metal::new(vec(1., 1., 1.), s(7.5)).fuzz, s(1.0));
    assert_eq!(Metal::new(vec(1., 1., 1.), s(-3.0)).fuzz, s(1.0));
    assert_eq!(Metal::new(vec(1., 1., 1.), Scalar::infinity()).fuzz, s(1.0));
    assert_eq!(Metal::new(vec(0.8, 0.6, 0.2), s(0.5)).albedo, vec(0.8, 0.6, 0.2));
}

#[test]
fn metal_reflects_and_absorbs() {
    let mirror = Metal::new(vec(0.8, 0.6, 0.2), s(0.0));
    let ray = Ray::new(vec(0., 0., 0.), vec(3., -4., 0.));
    let rec = record(vec(0., 1., 0.), true);
    let sr = mirror.scatter_with(&ray, &rec, vec(0., 0., 1.)).expect("a mirror reflects");
    assert_eq!(sr.ray.dir, vec(0.6, 0.8, 0.));
    assert_eq!(sr.attenuation, vec(0.8, 0.6, 0.2));
    assert_eq!(sr.ray.orig, rec.p);
    let rough = Metal::new(vec(0.8, 0.6, 0.2), s(1.0));
    assert_eq!(rough.scatter_with(&ray, &rec, vec(0., -1., 0.)), None);
    let kept = rough.scatter_with(&ray, &rec, vec(0., 0., 1.)).expect("still above the surface");
    assert_eq!(kept.ray.dir, vec(0.6, 0.8, 1.));
}

#[test]
fn dielectric_reflects_totally_beyond_the_critical_angle() {
    let glass = Dielectric::new(s(1.5));
    let rec = record(vec(0., 1., 0.), false);
    for k in 0..60 {
        let angle = (42.5 + k as f64 * 0.75f64).to_radians();
        let dir = vec(angle.sin(), -angle.cos(), 0.);
        let ray = Ray::new(vec(0., 5., 0.), dir);
        for draw in [0.0, 0.3, 0.999999] {
            let sr = glass.scatter_with(&ray, &rec, s(draw));
            assert_eq!(sr.ray.dir, dir.unit_vec().reflect(rec.normal), "angle {}", angle.to_degrees());
            assert!(sr.ray.dir.y.raw > 0);
            assert_eq!(sr.attenuation, vec(1., 1., 1.));
        }
    }
}

#[test]
fn dielectric_refracts_below_the_critical_angle() {
    let glass = Dielectric::new(s(1.5));
    let rec = record(vec(0., 1., 0.), false);
    let angle = 30.0f64.to_radians();
    let dir = vec(angle.sin(), -angle.cos(), 0.);
    let ray = Ray::new(vec(0., 5., 0.), dir);
    let through = glass.scatter_with(&ray, &rec, s(0.999999));
    assert!(through.ray.dir.y.raw < 0);
    let sin_out = f(through.ray.dir.x);
    assert!((sin_out - 1.5 * angle.sin()).abs() < 1e-4);
    let back = glass.scatter_with(&ray, &rec, s(0.0));
    assert_eq!(back.ray.dir, dir.unit_vec().reflect(rec.normal));
    let head_on = Ray::new(vec(0., 5., 0.), vec(0., -1., 0.));
    let entering = record(vec(0., 1., 0.), true);
    assert_eq!(glass.scatter_with(&head_on, &entering, s(0.5)).ray.dir, vec(0., -1., 0.));
    let mut rng = Sampler::new(13);
    let mut twin = Sampler::new(13);
    let draw = twin.uniform();
    assert_eq!(glass.scatter(&ray, &rec, &mut rng), Some(glass.scatter_with(&ray, &rec, draw)));
    assert_eq!(rng, twin);
}

#[test]
fn schlick_reflectance() {
    assert_eq!(reflectance(s(1.0), s(1.5)), s(0.04));
    assert_eq!(reflectance(s(0.0), s(1.5)), s(1.0));
    assert_eq!(reflectance(s(1.0), s(1.0)), s(0.0));
    let mid = f(reflectance(s(0.5), s(1.5)));
    assert!((mid - (0.04 + 0.96 * 0.5f64.powi(5))).abs() < 1e-5);
}

#[test]
fn isotropic_scatters_anywhere() {
    let m = Isotropic::from_color(vec(0.2, 0.4, 0.9));
    let ray = Ray::with_time(vec(0., 0., 0.), vec(1., 0., 0.), s(0.75));
    let rec = record(vec(1., 0., 0.), true);
    let sr = m.scatter_with(&ray, &rec, vec(0., 0., -1.));
    assert_eq!(sr.ray, Ray::with_time(rec.p, vec(0., 0., -1.), s(0.75)));
    assert_eq!(sr.attenuation, vec(0.2, 0.4, 0.9));
    assert_eq!(sr.pdf.raw, 79_577);
    assert_eq!(m.scattering_pdf(&ray, &rec, &sr.ray).raw, 79_577);
    let mut rng = Sampler::new(1);
    assert!(m.scatter(&ray, &rec, &mut rng).is_some());
    let textured = Isotropic::new(Texture::Solid(SolidColor::new(vec(0.5, 0.5, 0.5))));
    assert_eq!(textured.scatter_with(&ray, &rec, vec(0., 1., 0.)).attenuation, vec(0.5, 0.5, 0.5));
}

#[test]
fn lights_shine_from_the_front_only() {
    let light = DiffuseLight::new(Texture::Solid(SolidColor::new(vec(4., 3., 2.))));
    let ray = Ray::new(vec(0., 0., 0.), vec(0., 0., -1.));
    let front = record(vec(0., 0., 1.), true);
    let back = record(vec(0., 0., 1.), false);
    assert_eq!(light.emitted(&ray, &front, s(0.), s(0.), vec(0., 0., 0.)), vec(4., 3., 2.));
    assert_eq!(light.emitted(&ray, &back, s(0.), s(0.), vec(0., 0., 0.)), Vec3::zero());
    assert_eq!(light.scatter(&ray, &front), None);
    let white = DiffuseLight::from_color(vec(1., 1., 1.), s(7.));
    assert_eq!(white.emitted(&ray, &front, s(0.), s(0.), vec(0., 0., 0.)), vec(7., 7., 7.));
    let black = DiffuseLight::from_color(vec(0., 0., 0.), s(2.));
    assert_eq!(black.emitted(&ray, &front, s(0.), s(0.), vec(0., 0., 0.)), vec(2., 2., 2.));
    let red = DiffuseLight::from_color(vec(2., 0., 0.), s(4.));
    assert_eq!(red.emitted(&ray, &front, s(0.), s(0.), vec(0., 0., 0.)), vec(6., 0., 0.));
}

#[test]
fn material_dispatch() {
    let ray = Ray::new(vec(0., 5., 0.), vec(0., -1., 0.));
    let rec = record(vec(0., 1., 0.), true);
    let mut rng = Sampler::new(21);
    let light = Material::DiffuseLight(DiffuseLight::from_color(vec(1., 1., 1.), s(3.)));
    let before = rng;
    assert_eq!(light.scatter(&ray, &rec, &mut rng), None);
    assert_eq!(rng, before);
    assert_eq!(light.emitted(&ray, &rec, s(0.), s(0.), rec.p), vec(3., 3., 3.));
    assert_eq!(light.scattering_pdf(&ray, &rec, &ray), s(1.));
    let diffuse = Material::Lambertian(Lambertian::new(vec(0.5, 0.5, 0.5)));
    assert_eq!(diffuse.emitted(&ray, &rec, s(0.), s(0.), rec.p), Vec3::zero());
    let sr = diffuse.scatter(&ray, &rec, &mut rng).expect("diffuse surfaces always scatter");
    assert_ne!(rng, before);
    assert_eq!(sr.pdf, diffuse.scattering_pdf(&ray, &rec, &sr.ray));
    let metal = Material::Metal(Metal::new(vec(0.5, 0.5, 0.5), s(0.)));
    assert_eq!(metal.scatter(&ray, &rec, &mut rng).expect("a mirror reflects").ray.dir, vec(0., 1., 0.));
    assert_eq!(metal.scattering_pdf(&ray, &rec, &ray), s(1.));
    let glass = Material::Dielectric(Dielectric::new(s(1.5)));
    assert_eq!(glass.scatter(&ray, &rec, &mut rng).expect("glass always scatters").attenuation, vec(1., 1., 1.));
    let fog = Material::Isotropic(Isotropic::from_color(vec(1., 1., 1.)));
    assert_eq!(fog.scattering_pdf(&ray, &rec, &ray).raw, 79_577);
}

#[test]
fn densities() {
    let sphere = SpherePdf;
    assert_eq!(sphere.value(vec(0., 1., 0.)).raw, 79_577);
    let mut rng = Sampler::new(31);
    let mut twin = Sampler::new(31);
    assert_eq!(sphere.generate(&mut rng), Vec3::random_unit_vec(&mut twin));
    let cosine = CosinePdf::new(vec(0., 0., 3.));
    assert_eq!(cosine.value(vec(0., 0., 2.)).raw, 318_309);
    assert_eq!(cosine.value(vec(0., 0., -2.)).raw, 0);
    assert_eq!(cosine.value(vec(1., 0., 0.)).raw, 0);
    for _ in 0..200 {
        let d = cosine.generate(&mut rng);
        assert!(d.z.raw >= 0);
    }
}
