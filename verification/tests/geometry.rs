use ray_tracing::figures::aabb::AABB;
use ray_tracing::figures::hittable::Hittable;
use ray_tracing::figures::sphere::Sphere;
use ray_tracing::materials::lambertian::Lambertian;
use ray_tracing::materials::material::Material;
use ray_tracing::utility::interval::Interval;
use ray_tracing::utility::ray::Ray;
use ray_tracing::utility::scalar::Scalar;
use ray_tracing::utility::utils::Sampler;
use ray_tracing::utility::vec3::Vec3;
use std::sync::Arc;

fn s(x: f64) -> Scalar {
    Scalar::from_raw((x * 1e6).round() as i64)
}

fn f(x: Scalar) -> f64 {
    x.raw as f64 / 1e6
}

fn vec(x: f64, y: f64, z: f64) -> Vec3 {
    Vec3::new(s(x), s(y), s(z))
}

fn grey() -> Arc<Material> {
    Arc::new(Material::Lambertian(Lambertian::new(vec(0.5, 0.5, 0.5))))
}

#[test]
fn aabb_union_is_commutative() {
    let a = AABB::from_points(vec(0., 0., 0.), vec(1., 2., 3.));
    let b = AABB::from_points(vec(-4., 1., 2.5), vec(0.5, 7., 2.75));
    let mut ab = a;
    ab.concat(b);
    let mut ba = b;
    ba.concat(a);
    assert_eq!(ab, ba);
    assert_eq!(ab.x, Interval::new(s(-4.), s(1.)));
    assert_eq!(ab.y, Interval::new(s(0.), s(7.)));
    assert_eq!(ab.z, Interval::new(s(0.), s(3.)));
}

#[test]
fn aabb_union_with_empty_keeps_box() {
    let a = AABB::from_points(vec(0., 0., 0.), vec(1., 2., 3.));
    let mut b = a;
    b.concat(AABB::empty());
    assert_eq!(a, b);
    let mut c = AABB::empty();
    c.concat(a);
    assert_eq!(a, c);
}

#[test]
fn aabb_from_points_pads_flat_axes() {
    let flat = AABB::from_points(vec(1., 5., -2.), vec(3., 5., -2.));
    assert_eq!(flat.x, Interval::new(s(1.), s(3.)));
    assert_eq!(flat.y, Interval::new(s(4.99995), s(5.00005)));
    assert_eq!(flat.z, Interval::new(s(-2.00005), s(-1.99995)));
    for n in 0..3 {
        assert!(flat.axis_interval(n).size().raw >= 100);
    }
}

#[test]
fn aabb_from_points_takes_corners_in_any_order() {
    let a = AABB::from_points(vec(3., -1., 2.), vec(1., 4., 0.));
    let b = AABB::from_points(vec(1., 4., 0.), vec(3., -1., 2.));
    assert_eq!(a, b);
    assert_eq!(a.y, Interval::new(s(-1.), s(4.)));
}

#[test]
fn aabb_padding_fails_next_to_infinity() {
    let top = Scalar::infinity();
    let stuck = AABB::from_points(Vec3::new(top, top, top), Vec3::new(top, top, top));
    assert_eq!(stuck.x.size().raw, 50);
}

#[test]
fn aabb_axis_interval_falls_back_to_x() {
    let a = AABB::from_points(vec(0., 10., 20.), vec(1., 12., 23.));
    assert_eq!(a.axis_interval(0), a.x);
    assert_eq!(a.axis_interval(1), a.y);
    assert_eq!(a.axis_interval(2), a.z);
    assert_eq!(a.axis_interval(7), a.x);
    assert_eq!(a.axis_interval(-1), a.x);
}

#[test]
fn aabb_longest_axis_breaks_ties_as_stated() {
    let cube = AABB::from_points(vec(0., 0., 0.), vec(1., 1., 1.));
    assert_eq!(cube.longest_axis(), 2);
    let wide = AABB::from_points(vec(0., 0., 0.), vec(3., 1., 2.));
    assert_eq!(wide.longest_axis(), 0);
    let x_ties_z = AABB::from_points(vec(0., 0., 0.), vec(3., 1., 3.));
    assert_eq!(x_ties_z.longest_axis(), 2);
    let tall = AABB::from_points(vec(0., 0., 0.), vec(1., 3., 2.));
    assert_eq!(tall.longest_axis(), 1);
    let x_ties_y = AABB::from_points(vec(0., 0., 0.), vec(3., 3., 1.));
    assert_eq!(x_ties_y.longest_axis(), 1);
    let y_ties_z = AABB::from_points(vec(0., 0., 0.), vec(1., 3., 3.));
    assert_eq!(y_ties_z.longest_axis(), 2);
}

#[test]
fn aabb_slab_test_hits_and_misses() {
    let b = AABB::from_points(vec(-1., -1., -1.), vec(1., 1., 1.));
    let window = Interval::new(s(0.001), Scalar::infinity());
    let through = Ray::new(vec(0., 0., 5.), vec(0., 0., -1.));
    assert!(b.hit(&through, window));
    let away = Ray::new(vec(0., 0., 5.), vec(0., 0., 1.));
    assert!(!b.hit(&away, window));
    let beside = Ray::new(vec(3., 0., 5.), vec(0., 0., -1.));
    assert!(!b.hit(&beside, window));
    let short = Interval::new(s(0.001), s(3.5));
    assert!(!b.hit(&through, short));
    let touching = Interval::new(s(0.001), s(4.5));
    assert!(b.hit(&through, touching));
    let skew = Ray::new(vec(-5., -5., -5.), vec(1., 1., 1.));
    assert!(b.hit(&skew, window));
}

#[test]
fn sphere_hit_round_trip() {
    let center = vec(1., -2., -5.);
    let radius = 1.5;
    let sphere = Sphere::new(center, s(radius), grey());
    let n = (2.0f64 * 2.0 + 1.0 + 2.0 * 2.0).sqrt();
    let on_surface = (
        1. + radius * 2. / n,
        -2. + radius * 1. / n,
        -5. + radius * 2. / n,
    );
    let eye = (4., 3., 6.);
    let dir = (on_surface.0 - eye.0, on_surface.1 - eye.1, on_surface.2 - eye.2);
    let ray = Ray::new(vec(eye.0, eye.1, eye.2), vec(dir.0, dir.1, dir.2));
    let rec = sphere
        .hit(&ray, Interval::new(s(0.001), Scalar::infinity()))
        .expect("the ray aims at the sphere");
    let p = ray.at(rec.t);
    assert!((f(p.x) - on_surface.0).abs() < 1e-3);
    assert!((f(p.y) - on_surface.1).abs() < 1e-3);
    assert!((f(p.z) - on_surface.2).abs() < 1e-3);
    assert!((f(rec.t) - 1.0).abs() < 1e-3);
    assert_eq!(rec.p, p);
    let len = (f(rec.normal.x).powi(2) + f(rec.normal.y).powi(2) + f(rec.normal.z).powi(2)).sqrt();
    assert!((len - 1.0).abs() < 1e-3);
    assert!(rec.front_face);
    assert!((f(rec.normal.x) - 2. / n).abs() < 1e-3);
    assert!((f(rec.normal.y) - 1. / n).abs() < 1e-3);
    assert!((f(rec.normal.z) - 2. / n).abs() < 1e-3);
}

#[test]
fn sphere_hit_exact_values() {
    let sphere = Sphere::new(vec(0., 0., -1.), s(0.5), grey());
    let ray = Ray::new(vec(0., 0., 0.), vec(0., 0., -1.));
    let rec = sphere
        .hit(&ray, Interval::new(s(0.001), Scalar::infinity()))
        .expect("the ray aims at the sphere");
    assert_eq!(rec.t, s(0.5));
    assert_eq!(rec.p, vec(0., 0., -0.5));
    assert_eq!(rec.normal, vec(0., 0., 1.));
    assert!(rec.front_face);
    let inside = Ray::new(vec(0., 0., -1.), vec(0., 0., -1.));
    let rec = sphere
        .hit(&inside, Interval::new(s(0.001), Scalar::infinity()))
        .expect("a ray from inside leaves the sphere");
    assert_eq!(rec.t, s(0.5));
    assert!(!rec.front_face);
    assert_eq!(rec.normal, vec(0., 0., 1.));
}

#[test]
fn sphere_misses_and_window() {
    let sphere = Sphere::new(vec(0., 0., -1.), s(0.5), grey());
    let aside = Ray::new(vec(0., 0., 0.), vec(0., 1., 0.));
    assert!(sphere.hit(&aside, Interval::new(s(0.001), Scalar::infinity())).is_none());
    let ray = Ray::new(vec(0., 0., 0.), vec(0., 0., -1.));
    assert!(sphere.hit(&ray, Interval::new(s(0.001), s(0.4))).is_none());
    assert!(sphere.hit(&ray, Interval::new(s(0.001), s(0.5))).is_none());
    let far = sphere.hit(&ray, Interval::new(s(0.6), s(2.))).expect("the far root is inside");
    assert_eq!(far.t, s(1.5));
}

#[test]
fn sphere_negative_radius_counts_as_zero() {
    let sphere = Sphere::new(vec(0., 0., 0.), s(-3.), grey());
    assert_eq!(sphere.radius, s(0.));
}

#[test]
fn sphere_uv_at_the_poles_and_the_equator() {
    let sphere = Sphere::new(vec(0., 0., 0.), s(1.), grey());
    let cases = [
        ((1., 0., 0.), (0.5, 0.5)),
        ((0., 1., 0.), (0.5, 1.0)),
        ((0., 0., 1.), (0.25, 0.5)),
        ((-1., 0., 0.), (1.0, 0.5)),
        ((0., -1., 0.), (0.5, 0.0)),
        ((0., 0., -1.), (0.75, 0.5)),
    ];
    for (p, (eu, ev)) in cases {
        let mut u = Scalar::zero();
        let mut v = Scalar::zero();
        sphere.get_sphere_uv(vec(p.0, p.1, p.2), &mut u, &mut v);
        assert!((f(u) - eu).abs() < 1e-5, "u of {:?} is {}", p, f(u));
        assert!((f(v) - ev).abs() < 1e-5, "v of {:?} is {}", p, f(v));
    }
}

#[test]
fn moving_sphere_is_hit_where_it_is() {
    let sphere = Sphere::new_animated(vec(0., 0., -1.), vec(0., 2., -1.), s(0.5), grey());
    let window = Interval::new(s(0.001), Scalar::infinity());
    let early = Ray::with_time(vec(0., 0., 0.), vec(0., 0., -1.), s(0.));
    assert!(sphere.hit(&early, window).is_some());
    let late = Ray::with_time(vec(0., 0., 0.), vec(0., 0., -1.), s(1.));
    assert!(sphere.hit(&late, window).is_none());
    let late_up = Ray::with_time(vec(0., 2., 0.), vec(0., 0., -1.), s(1.));
    assert!(sphere.hit(&late_up, window).is_some());
    let b = sphere.bounding_box();
    assert_eq!(b.y, Interval::new(s(-0.5), s(2.5)));
}

#[test]
fn hit_record_shares_the_material() {
    let mat = grey();
    let sphere = Sphere::new(vec(0., 0., -1.), s(0.5), Arc::clone(&mat));
    let ray = Ray::new(vec(0., 0., 0.), vec(0., 0., -1.));
    let rec = Hittable::Sphere(sphere)
        .hit(&ray, Interval::new(s(0.001), Scalar::infinity()), &mut Sampler::new(1))
        .expect("the ray aims at the sphere");
    assert!(Arc::ptr_eq(&rec.material, &mat));
}
