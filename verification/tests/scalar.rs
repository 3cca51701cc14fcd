use ray_tracing::utility::interval::Interval;
use ray_tracing::utility::scalar::{Scalar, RAW_MAX, RAW_MIN, SCALE};
use ray_tracing::utility::utils::degrees_to_radians;

fn s(x: f64) -> Scalar {
    Scalar::from_raw((x * 1e6).round() as i64)
}

fn f(x: Scalar) -> f64 {
    x.raw as f64 / 1e6
}

#[test]
fn scalar_constants() {
    assert_eq!(SCALE, 1_000_000);
    assert_eq!(Scalar::zero().raw, 0);
    assert_eq!(Scalar::one().raw, 1_000_000);
    assert_eq!(Scalar::infinity().raw, i64::MAX);
    assert_eq!(Scalar::neg_infinity().raw, i64::MIN);
    assert_eq!(RAW_MAX, i64::MAX);
    assert_eq!(RAW_MIN, i64::MIN);
    assert_eq!(Scalar::default(), Scalar::zero());
    assert_eq!(Scalar::pi().raw, 3_141_593);
}

#[test]
fn scalar_from_int_and_ratio() {
    assert_eq!(Scalar::from_int(3).raw, 3_000_000);
    assert_eq!(Scalar::from_int(-7).raw, -7_000_000);
    assert_eq!(Scalar::from_int(i64::MAX).raw, i64::MAX);
    assert_eq!(Scalar::from_int(i64::MIN).raw, i64::MIN);
    assert_eq!(Scalar::from_ratio(1, 2).raw, 500_000);
    assert_eq!(Scalar::from_ratio(73, 100).raw, 730_000);
    assert_eq!(Scalar::from_ratio(16, 9).raw, 1_777_777);
    assert_eq!(Scalar::from_ratio(-16, 9).raw, -1_777_777);
    assert_eq!(Scalar::from_ratio(1, 0), Scalar::infinity());
    assert_eq!(Scalar::from_wide(1 << 100), Scalar::infinity());
    assert_eq!(Scalar::from_wide(-(1 << 100)), Scalar::neg_infinity());
    assert_eq!(Scalar::from_wide(42).raw, 42);
}

#[test]
fn scalar_addition_saturates() {
    assert_eq!(s(1.5).add(s(2.25)), s(3.75));
    assert_eq!(s(1.5).sub(s(2.25)), s(-0.75));
    assert_eq!(Scalar::infinity().add(s(1.0)), Scalar::infinity());
    assert_eq!(Scalar::neg_infinity().sub(s(1.0)), Scalar::neg_infinity());
    assert_eq!(Scalar::infinity().sub(s(1.0)).raw, i64::MAX - 1_000_000);
    assert_eq!(Scalar::neg_infinity().neg(), Scalar::infinity());
    assert_eq!(Scalar::infinity().neg().raw, -i64::MAX);
    assert_eq!(s(-2.5).abs(), s(2.5));
    assert_eq!(s(2.5).abs(), s(2.5));
    assert_eq!(Scalar::neg_infinity().abs(), Scalar::infinity());
}

#[test]
fn scalar_multiplication_rounds_toward_zero() {
    assert_eq!(s(1.5).mul(s(2.0)), s(3.0));
    assert_eq!(s(-1.5).mul(s(2.0)), s(-3.0));
    assert_eq!(Scalar::from_raw(1).mul(Scalar::from_raw(999_999)).raw, 0);
    assert_eq!(Scalar::from_raw(-1).mul(Scalar::from_raw(999_999)).raw, 0);
    assert_eq!(Scalar::from_raw(3).mul(Scalar::from_raw(500_000)).raw, 1);
    assert_eq!(Scalar::from_raw(-3).mul(Scalar::from_raw(500_000)).raw, -1);
    assert_eq!(Scalar::infinity().mul(s(2.0)), Scalar::infinity());
    assert_eq!(Scalar::infinity().mul(s(-2.0)), Scalar::neg_infinity());
    assert_eq!(Scalar::neg_infinity().mul(Scalar::neg_infinity()), Scalar::infinity());
    assert_eq!(s(3.0).square(), s(9.0));
    assert_eq!(s(-3.0).square(), s(9.0));
}

#[test]
fn scalar_division() {
    assert_eq!(s(3.0).div(s(2.0)), s(1.5));
    assert_eq!(s(1.0).div(s(3.0)).raw, 333_333);
    assert_eq!(s(-1.0).div(s(3.0)).raw, -333_333);
    assert_eq!(s(1.0).div(s(-3.0)).raw, -333_333);
    assert_eq!(s(-1.0).div(s(-3.0)).raw, 333_333);
    assert_eq!(s(1.0).div(Scalar::zero()), Scalar::infinity());
    assert_eq!(s(-1.0).div(Scalar::zero()), Scalar::neg_infinity());
    assert_eq!(Scalar::zero().div(Scalar::zero()), Scalar::zero());
    assert_eq!(Scalar::infinity().div(Scalar::from_raw(1)), Scalar::infinity());
    assert_eq!(s(1.0).div(Scalar::infinity()).raw, 0);
}

#[test]
fn scalar_square_root() {
    assert_eq!(s(4.0).sqrt(), s(2.0));
    assert_eq!(s(2.0).sqrt().raw, 1_414_213);
    assert_eq!(s(0.25).sqrt(), s(0.5));
    assert_eq!(Scalar::zero().sqrt(), Scalar::zero());
    assert_eq!(s(-4.0).sqrt(), Scalar::zero());
    assert_eq!(Scalar::from_raw(1).sqrt().raw, 1_000);
    let big = Scalar::infinity().sqrt().raw as i128;
    let n = (i64::MAX as i128) * 1_000_000;
    assert!(big * big <= n && n < (big + 1) * (big + 1));
}

#[test]
fn scalar_min_max_floor_fract() {
    assert_eq!(s(1.0).min(s(2.0)), s(1.0));
    assert_eq!(s(1.0).max(s(2.0)), s(2.0));
    assert_eq!(s(2.75).floor(), 2);
    assert_eq!(s(-2.75).floor(), -3);
    assert_eq!(s(-3.0).floor(), -3);
    assert_eq!(s(2.75).fract(), s(0.75));
    assert_eq!(s(-2.75).fract(), s(0.25));
    assert_eq!(s(-3.0).fract(), s(0.0));
}

#[test]
fn interval_operations() {
    let i = Interval::new(s(1.0), s(3.0));
    assert_eq!(i.size(), s(2.0));
    assert!(i.contains(s(1.0)) && i.contains(s(3.0)) && i.contains(s(2.0)));
    assert!(!i.contains(s(0.999999)) && !i.contains(s(3.000001)));
    assert!(!i.surrounds(s(1.0)) && !i.surrounds(s(3.0)) && i.surrounds(s(2.0)));
    assert_eq!(i.clamp(s(0.0)), s(1.0));
    assert_eq!(i.clamp(s(5.0)), s(3.0));
    assert_eq!(i.clamp(s(2.5)), s(2.5));
    assert_eq!(i.expand(s(1.0)), Interval::new(s(0.5), s(3.5)));
    assert_eq!(i.add(s(10.0)), Interval::new(s(11.0), s(13.0)));
    let mut j = i;
    j.concat(Interval::new(s(-1.0), s(2.0)));
    assert_eq!(j, Interval::new(s(-1.0), s(3.0)));
    let mut k = i;
    k.concat(Interval::empty());
    assert_eq!(k, i);
    assert_eq!(Interval::default(), Interval::empty());
    assert_eq!(Interval::empty().min, Scalar::infinity());
    assert_eq!(Interval::empty().max, Scalar::neg_infinity());
    assert!(Interval::universe().contains(s(1e12)));
    assert!(!Interval::empty().contains(s(0.0)));
}

fn close(a: Scalar, b: f64, tol: f64) -> bool {
    (f(a) - b).abs() <= tol
}

#[test]
fn sine_and_cosine_follow_the_real_ones() {
    let mut x = -20.0f64;
    while x < 20.0 {
        assert!(close(s(x).sin(), f(s(x)).sin(), 1e-5), "sin {}", x);
        assert!(close(s(x).cos(), f(s(x)).cos(), 1e-5), "cos {}", x);
        assert!(s(x).sin().raw.abs() <= 1_000_000);
        assert!(s(x).cos().raw.abs() <= 1_000_000);
        x += 0.0371;
    }
    assert_eq!(Scalar::zero().sin(), Scalar::zero());
    assert_eq!(Scalar::zero().cos(), Scalar::one());
    assert!(close(s(std::f64::consts::FRAC_PI_6).sin(), 0.5, 2e-6));
}

#[test]
fn tangent_follows_the_real_one() {
    let mut x = -1.3f64;
    while x < 1.3 {
        assert!(close(s(x).tan(), f(s(x)).tan(), 5e-5), "tan {}", x);
        x += 0.0173;
    }
    assert!(close(degrees_to_radians(s(45.0)).tan(), 1.0, 1e-5));
    assert!(close(degrees_to_radians(s(180.0)), std::f64::consts::PI, 2e-6));
    assert_eq!(degrees_to_radians(s(0.0)), Scalar::zero());
}

#[test]
fn arc_functions_follow_the_real_ones() {
    let mut x = -50.0f64;
    while x < 50.0 {
        assert!(close(s(x).atan(), f(s(x)).atan(), 1e-5), "atan {}", x);
        x += 0.0917;
    }
    let mut y = -3.0f64;
    while y < 3.0 {
        let mut x = -3.0f64;
        while x < 3.0 {
            if x.abs() > 0.01 || y.abs() > 0.01 {
                assert!(close(s(y).atan2(s(x)), f(s(y)).atan2(f(s(x))), 2e-5), "atan2 {} {}", y, x);
            }
            x += 0.173;
        }
        y += 0.191;
    }
    let mut c = -1.0f64;
    while c <= 1.0 {
        assert!(close(s(c).acos(), f(s(c)).acos(), 2e-5), "acos {}", c);
        c += 0.0031;
    }
    assert_eq!(s(1.0).acos(), Scalar::zero());
    assert_eq!(s(5.0).acos(), Scalar::zero());
    assert_eq!(s(-1.0).acos(), Scalar::pi());
    assert_eq!(Scalar::zero().atan2(Scalar::zero()), Scalar::zero());
    assert_eq!(s(1.0).atan2(Scalar::zero()).raw, 1_570_796);
    assert_eq!(s(-1.0).atan2(Scalar::zero()).raw, -1_570_796);
    assert_eq!(Scalar::zero().atan2(s(-1.0)), Scalar::pi());
}

#[test]
fn logarithm_and_exponential_follow_the_real_ones() {
    let mut x = 0.001f64;
    while x < 2000.0 {
        assert!(close(s(x).ln(), f(s(x)).ln(), 2e-5), "ln {}", x);
        x *= 1.013;
    }
    assert_eq!(s(1.0).ln(), Scalar::zero());
    assert_eq!(Scalar::zero().ln(), Scalar::neg_infinity());
    assert_eq!(s(-1.0).ln(), Scalar::neg_infinity());
    let mut y = -12.0f64;
    while y < 4.0 {
        let want = f(s(y)).exp();
        assert!(close(s(y).exp(), want, 2e-5 * want.max(1.0)), "exp {}", y);
        y += 0.0371;
    }
    assert_eq!(Scalar::zero().exp(), Scalar::one());
    assert_eq!(Scalar::neg_infinity().exp(), Scalar::zero());
    assert_eq!(Scalar::infinity().exp(), Scalar::infinity());
}

#[test]
fn powers_follow_the_real_ones() {
    for b in 0..=255u32 {
        let base = b as f64 / 255.0;
        let got = Scalar::from_ratio(b as i64, 255).powf(s(2.2));
        assert!(close(got, base.powf(2.2), 3e-5), "pow {}", b);
    }
    assert_eq!(s(1.0).powf(s(2.2)), Scalar::one());
    assert_eq!(Scalar::zero().powf(s(2.2)), Scalar::zero());
    assert_eq!(s(-2.0).powf(s(2.0)), Scalar::zero());
    assert!(close(s(2.0).powf(s(10.0)), 1024.0, 2e-2));
}
