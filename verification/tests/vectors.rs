use ray_tracing::utility::orthonormal::Onb;
use ray_tracing::utility::ray::Ray;
use ray_tracing::utility::scalar::Scalar;
use ray_tracing::utility::utils::Sampler;
use ray_tracing::utility::vec3::Vec3;

fn s(x: f64) -> Scalar {
    Scalar::from_raw((x * 1e6).round() as i64)
}

fn f(x: Scalar) -> f64 {
    x.raw as f64 / 1e6
}

fn vec(x: f64, y: f64, z: f64) -> Vec3 {
    Vec3::new(s(x), s(y), s(z))
}

fn length(v: Vec3) -> f64 {
    (f(v.x).powi(2) + f(v.y).powi(2) + f(v.z).powi(2)).sqrt()
}

#[test]
fn vector_arithmetic() {
    let a = vec(1., 2., 3.);
    let b = vec(-4., 0.5, 2.);
    assert_eq!(a.add(b), vec(-3., 2.5, 5.));
    assert_eq!(a.sub(b), vec(5., 1.5, 1.));
    assert_eq!(a.neg(), vec(-1., -2., -3.));
    assert_eq!(a.mul(b), vec(-4., 1., 6.));
    assert_eq!(a.scale(s(2.)), vec(2., 4., 6.));
    assert_eq!(a.div(s(2.)), vec(0.5, 1., 1.5));
    assert_eq!(a.dot(&b), s(3.));
    assert_eq!(a.len_square(), s(14.));
    assert_eq!(vec(3., 4., 0.).len(), s(5.));
    assert_eq!(a.x(), s(1.));
    assert_eq!(a.y(), s(2.));
    assert_eq!(a.z(), s(3.));
    assert_eq!(a.index(0), s(1.));
    assert_eq!(a.index(1), s(2.));
    assert_eq!(a.index(2), s(3.));
    assert_eq!(Vec3::default(), Vec3::zero());
    assert_eq!(Vec3::from_ints(1, -2, 3), vec(1., -2., 3.));
}

#[test]
fn cross_product_is_right_handed() {
    let x = vec(1., 0., 0.);
    let y = vec(0., 1., 0.);
    let z = vec(0., 0., 1.);
    assert_eq!(x.cross(&y), z);
    assert_eq!(y.cross(&z), x);
    assert_eq!(z.cross(&x), y);
    assert_eq!(y.cross(&x), z.neg());
    assert_eq!(vec(1., 2., 3.).cross(&vec(4., 5., 6.)), vec(-3., 6., -3.));
}

#[test]
fn unit_vector_and_near_zero() {
    assert_eq!(vec(3., 0., 4.).unit_vec(), vec(0.6, 0., 0.8));
    assert_eq!(Vec3::zero().unit_vec(), Vec3::zero());
    assert!((length(vec(1., 2., 3.).unit_vec()) - 1.0).abs() < 1e-5);
    assert!(vec(0.00009, -0.00009, 0.).near_zero());
    assert!(!vec(0.0001, 0., 0.).near_zero());
    assert!(!vec(0., 0., -0.0001).near_zero());
}

#[test]
fn reflection_and_refraction() {
    let n = vec(0., 1., 0.);
    assert_eq!(vec(1., -1., 0.).reflect(n), vec(1., 1., 0.));
    assert_eq!(vec(0., -1., 0.).reflect(n), vec(0., 1., 0.));
    assert_eq!(vec(0., -1., 0.).refract(n, s(1.0)), vec(0., -1., 0.));
    assert_eq!(vec(0., -1., 0.).refract(n, s(1.5)), vec(0., -1., 0.));
    let slanted = vec(1., -1., 0.).unit_vec();
    let bent = slanted.refract(n, s(1.0 / 1.5));
    let sin_in = f(slanted.x);
    let sin_out = f(bent.x) / length(bent);
    assert!((sin_out - sin_in / 1.5).abs() < 1e-5);
    assert!(f(bent.y) < 0.);
}

#[test]
fn ray_evaluation() {
    let mut r = Ray::new(vec(1., 2., 3.), vec(0., 0., -2.));
    assert_eq!(r.at(s(0.)), vec(1., 2., 3.));
    assert_eq!(r.at(s(1.5)), vec(1., 2., 0.));
    assert_eq!(r.at(s(-1.)), vec(1., 2., 5.));
    assert_eq!(*r.origin(), vec(1., 2., 3.));
    assert_eq!(*r.direction(), vec(0., 0., -2.));
    assert_eq!(r.time(), s(0.));
    *r.origin_mut() = vec(0., 0., 0.);
    *r.direction_mut() = vec(1., 0., 0.);
    assert_eq!(r, Ray::new(vec(0., 0., 0.), vec(1., 0., 0.)));
    let timed = Ray::with_time(vec(0., 0., 0.), vec(1., 0., 0.), s(0.25));
    assert_eq!(timed.time(), s(0.25));
    assert_eq!(Ray::default(), Ray::new(Vec3::zero(), Vec3::zero()));
}

#[test]
fn random_vectors_lie_where_they_should() {
    let mut rng = Sampler::new(7);
    for _ in 0..2000 {
        let v = Vec3::random(&mut rng);
        assert!(0 <= v.x.raw && v.x.raw < 1_000_000);
        assert!(0 <= v.y.raw && v.y.raw < 1_000_000);
        assert!(0 <= v.z.raw && v.z.raw < 1_000_000);
        let b = Vec3::random_bounded(&mut rng, s(-2.), s(3.));
        assert!(-2_000_000 <= b.x.raw && b.x.raw < 3_000_000);
        let u = Vec3::random_unit_vec(&mut rng);
        assert!((length(u) - 1.0).abs() < 1e-3, "length {}", length(u));
        let n = vec(0., 0., 1.);
        let h = Vec3::random_on_hemisphere(&mut rng, &n);
        assert!(h.z.raw >= 0);
        let d = Vec3::random_in_unit_disk(&mut rng);
        assert_eq!(d.z, s(0.));
        assert!(f(d.x).powi(2) + f(d.y).powi(2) < 1.0 + 1e-5);
        let c = Vec3::random_cosine_direction(&mut rng);
        assert!(c.z.raw >= 0);
        assert!((length(c) - 1.0).abs() < 1e-2);
    }
}

#[test]
fn random_vectors_repeat_for_one_seed() {
    let mut a = Sampler::new(99);
    let mut b = Sampler::new(99);
    for _ in 0..50 {
        assert_eq!(Vec3::random_unit_vec(&mut a), Vec3::random_unit_vec(&mut b));
        assert_eq!(a, b);
    }
    let mut c = Sampler::new(100);
    let mut same = 0;
    for _ in 0..50 {
        if Vec3::random_unit_vec(&mut a) == Vec3::random_unit_vec(&mut c) {
            same += 1;
        }
    }
    assert!(same < 5);
}

#[test]
fn orthonormal_basis() {
    let basis = Onb::new(vec(0., 0., 2.));
    assert_eq!(basis.w(), vec(0., 0., 1.));
    assert_eq!(basis.v(), vec(0., 1., 0.));
    assert_eq!(basis.u(), vec(-1., 0., 0.));
    assert_eq!(basis.transform(vec(1., 2., 3.)), vec(-1., 2., 3.));
    let tilted = Onb::new(vec(1., 1., 1.));
    assert!(f(tilted.u().dot(&tilted.v())).abs() < 1e-5);
    assert!(f(tilted.u().dot(&tilted.w())).abs() < 1e-5);
    assert!(f(tilted.v().dot(&tilted.w())).abs() < 1e-5);
    assert!((length(tilted.u()) - 1.).abs() < 1e-5);
    let along_x = Onb::new(vec(1., 0., 0.));
    assert_eq!(along_x.w(), vec(1., 0., 0.));
    assert_eq!(along_x.v(), vec(0., 0., 1.));
}
