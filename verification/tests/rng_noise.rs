//! Tests of the deterministic random source and the noise field.

use mapgen::noise::NoiseField;
use mapgen::rng::SeededRandomSource;
use mapgen::FP;

#[test]
fn rng_same_seed_same_sequence() {
    let mut a = SeededRandomSource::new(7);
    let mut b = SeededRandomSource::new(7);
    for _ in 0..32 {
        assert_eq!(a.next_u64(), b.next_u64());
    }
}

#[test]
fn rng_exact_first_outputs() {
    let mut r = SeededRandomSource::new(42);
    assert_eq!(r.next_u64(), 13679457532755275413);
    assert_eq!(r.next_u64(), 2949826092126892291);
    assert_eq!(r.next_u64(), 5139283748462763858);
}

#[test]
fn rng_distinct_seeds_diverge() {
    let mut a = SeededRandomSource::new(1);
    let mut b = SeededRandomSource::new(2);
    assert_ne!(a.next_u64(), b.next_u64());
}

#[test]
fn uniform_int_exact_value() {
    let mut r = SeededRandomSource::new(42);
    assert_eq!(r.uniform_int(0, 10), 3);
    let mut r = SeededRandomSource::new(42);
    assert_eq!(r.uniform_int(-5, 7), -4);
}

#[test]
fn uniform_int_stays_in_range() {
    let mut r = SeededRandomSource::new(99);
    for _ in 0..200 {
        let v = r.uniform_int(-5, 7);
        assert!((-5..7).contains(&v));
    }
}

#[test]
fn random_bool_is_deterministic() {
    let mut a = SeededRandomSource::new(11);
    let mut b = SeededRandomSource::new(11);
    for _ in 0..50 {
        assert_eq!(a.random_bool(1, 3), b.random_bool(1, 3));
    }
}

#[test]
fn random_bool_extremes() {
    let mut r = SeededRandomSource::new(4);
    for _ in 0..20 {
        assert!(r.random_bool(1, 1));
    }
    for _ in 0..20 {
        assert!(!r.random_bool(0, 5));
    }
}

#[test]
fn noise_is_deterministic() {
    let f = NoiseField::new(5);
    let g = NoiseField::new(5);
    for x in [-3000_i64, -700, 0, 512, 4096] {
        for y in [-2048_i64, -1, 0, 300, 9000] {
            assert_eq!(f.sample(x, y), g.sample(x, y));
        }
    }
}

#[test]
fn noise_exact_values() {
    let f = NoiseField::new(5);
    assert_eq!(f.sample(0, 0), -914);
    assert_eq!(f.sample(700, -300), -413);
}

#[test]
fn noise_stays_in_range() {
    let f = NoiseField::new(123);
    let mut x: i64 = -500_000;
    while x < 500_000 {
        let v = f.sample(x, -x / 3);
        assert!(-FP <= v && v <= FP);
        let b = f.sample_biased(x, x / 7);
        assert!(b <= 2 * (FP as u64));
        x += 37_113;
    }
}

#[test]
fn noise_differs_between_seeds() {
    let f = NoiseField::new(1);
    let g = NoiseField::new(2);
    let mut differs = false;
    let mut x: i64 = 0;
    while x < 20_000 {
        if f.sample(x, 0) != g.sample(x, 0) {
            differs = true;
        }
        x += 997;
    }
    assert!(differs);
}
