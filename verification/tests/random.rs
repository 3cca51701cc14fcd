use ray_tracing::utility::perlin::{generate_perm, permute, PerlinNoise, POINT_COUNT};
use ray_tracing::utility::scalar::Scalar;
use ray_tracing::utility::utils::{random_i32, random_i64, random_scalar, Sampler};
use ray_tracing::utility::vec3::Vec3;

fn s(x: f64) -> Scalar {
    Scalar::from_raw((x * 1e6).round() as i64)
}

#[test]
fn sampler_draws_what_the_generator_draws() {
    let mut sampler = Sampler::new(42);
    let mut rng = fastrand::Rng::with_seed(42);
    for _ in 0..100 {
        assert_eq!(sampler.next_u64(), rng.u64(..));
        assert_eq!(sampler.seed, rng.get_seed());
    }
}

#[test]
fn sampler_advances_and_repeats() {
    let mut a = Sampler::new(5);
    let first = a.next_u64();
    assert_ne!(first, 5);
    assert_ne!(a.seed, 5);
    let second = a.next_u64();
    assert_ne!(first, second);
    let mut b = Sampler::new(5);
    assert_eq!(b.next_u64(), first);
    assert_eq!(b.next_u64(), second);
    assert_eq!(a, b);
}

#[test]
fn uniform_draws_lie_in_the_unit_interval() {
    let mut rng = Sampler::new(3);
    let mut sum = 0i64;
    for _ in 0..10_000 {
        let u = rng.uniform();
        assert!(0 <= u.raw && u.raw < 1_000_000);
        sum += u.raw;
    }
    let mean = sum as f64 / 10_000.0 / 1e6;
    assert!((mean - 0.5).abs() < 0.02);
    let mut again = Sampler::new(3);
    let again_bits = fastrand::Rng::with_seed(3).u64(..);
    assert_eq!(again.uniform().raw, (again_bits % 1_000_000) as i64);
}

#[test]
fn scalar_draws_lie_in_their_range() {
    let mut rng = Sampler::new(11);
    for _ in 0..1000 {
        let x = random_scalar(&mut rng, s(-2.5), s(4.0));
        assert!(s(-2.5).raw <= x.raw && x.raw < s(4.0).raw);
    }
    let mut rng = Sampler::new(11);
    assert_eq!(random_scalar(&mut rng, s(3.0), s(3.0)), s(3.0));
}

#[test]
fn integer_draws_lie_in_their_range_and_advance() {
    let mut rng = Sampler::new(17);
    let mut seen = [false; 6];
    for _ in 0..200 {
        let before = rng.seed;
        let x = random_i32(&mut rng, -2, 3);
        assert!((-2..=3).contains(&x));
        assert_ne!(rng.seed, before);
        seen[(x + 2) as usize] = true;
    }
    assert!(seen.iter().all(|&b| b));
    let mut rng = Sampler::new(17);
    let want = fastrand::Rng::with_seed(17).i32(-2..=3);
    assert_eq!(random_i32(&mut rng, -2, 3), want);
    assert_eq!(random_i32(&mut rng, 9, 9), 9);
    let mut wide = Sampler::new(23);
    let want = fastrand::Rng::with_seed(23).i64(-5_000_000_000..=5_000_000_000);
    let before = wide.seed;
    assert_eq!(random_i64(&mut wide, -5_000_000_000, 5_000_000_000), want);
    assert_ne!(wide.seed, before);
    let mut big = false;
    for _ in 0..100 {
        let x = random_i64(&mut wide, -5_000_000_000, 5_000_000_000);
        assert!((-5_000_000_000..=5_000_000_000).contains(&x));
        big = big || x.abs() > i32::MAX as i64;
    }
    assert!(big);
}

fn is_permutation(p: &[i32]) -> bool {
    let mut seen = vec![false; p.len()];
    for &x in p {
        if x < 0 || x as usize >= p.len() || seen[x as usize] {
            return false;
        }
        seen[x as usize] = true;
    }
    true
}

#[test]
fn permute_shuffles_in_place() {
    let mut p: Vec<i32> = (0..10).collect();
    let mut rng = Sampler::new(1);
    permute(&mut p, &mut rng);
    assert_eq!(p.len(), 10);
    assert!(is_permutation(&p));
    let mut q: Vec<i32> = (0..10).collect();
    let mut gen = fastrand::Rng::with_seed(1);
    for i in (0..10usize).rev() {
        let target = gen.i32(0..=i as i32) as usize;
        q.swap(i, target);
    }
    assert_eq!(p, q);
    assert_eq!(rng.seed, gen.get_seed());
    let mut empty: Vec<i32> = Vec::new();
    permute(&mut empty, &mut rng);
    assert!(empty.is_empty());
}

#[test]
fn generate_perm_gives_a_permutation() {
    let mut rng = Sampler::new(2024);
    let mut p = vec![7, 7, 7];
    generate_perm(&mut p, &mut rng);
    assert_eq!(p.len(), POINT_COUNT);
    assert!(is_permutation(&p));
    assert_ne!(p, (0..256).collect::<Vec<i32>>());
    let mut q = Vec::new();
    generate_perm(&mut q, &mut Sampler::new(2024));
    assert_eq!(p, q);
}

#[test]
fn perlin_noise_is_well_formed_and_smooth() {
    let mut rng = Sampler::new(8);
    let noise = PerlinNoise::new(&mut rng);
    assert_eq!(noise.randvec.len(), 256);
    assert!(is_permutation(&noise.perm_x));
    assert!(is_permutation(&noise.perm_y));
    assert!(is_permutation(&noise.perm_z));
    for g in noise.randvec.iter() {
        let len = ((g.x.raw as f64).powi(2) + (g.y.raw as f64).powi(2) + (g.z.raw as f64).powi(2)).sqrt() / 1e6;
        assert!((len - 1.0).abs() < 1e-4 || *g == Vec3::zero());
    }
    assert_eq!(noise.noise(Vec3::from_ints(3, -4, 5)), Scalar::zero());
    let mut x = -3.0f64;
    let mut last = noise.noise(Vec3::new(s(x), s(0.3), s(0.7)));
    while x < 3.0 {
        x += 0.01;
        let here = noise.noise(Vec3::new(s(x), s(0.3), s(0.7)));
        assert!(here.raw.abs() <= 1_500_000);
        assert!((here.raw - last.raw).abs() < 60_000, "jump at {}", x);
        last = here;
    }
    let p = Vec3::new(s(0.3), s(1.7), s(-2.2));
    assert_eq!(noise.turbulence(p, 1), noise.noise(p).abs());
    assert_eq!(noise.turbulence(p, 0), Scalar::zero());
    assert_eq!(noise.turbulence(p, -3), Scalar::zero());
    let two = noise.noise(p).add(s(0.5).mul(noise.noise(p.scale(s(2.))))).abs();
    assert_eq!(noise.turbulence(p, 2), two);
    assert!(noise.turbulence(p, 7).raw >= 0);
}
