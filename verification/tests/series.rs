use deepzoom::bigfloat::{real_from_u32, real_parse, working_precision, BigComplex, BigReal};
use deepzoom::series::compute_series_coefficients;

const PRECISION: u32 = 64;

fn num(text: &str) -> BigReal {
    real_parse(text, PRECISION).unwrap()
}

fn complex(re: &str, im: &str) -> BigComplex {
    BigComplex { re: num(re), im: num(im) }
}

fn as_pair(v: deepzoom::bigfloat::ReducedComplex) -> (f32, f32) {
    (f32::from_bits(v.re_bits), f32::from_bits(v.im_bits))
}

#[test]
fn identity_seed_at_zero_iterations() {
    let z = complex("0.25", "0.125");
    let c = complex("-1.0", "0.5");
    let r = compute_series_coefficients(&z, &c, &real_from_u32(2, PRECISION), 0);
    assert_eq!(as_pair(r.a), (1.0, 0.0));
    assert_eq!(as_pair(r.b), (0.0, 0.0));
    assert_eq!(as_pair(r.c), (0.0, 0.0));
    assert_eq!(as_pair(r.d), (0.0, 0.0));
    assert_eq!(r.escaped_at, None);
}

#[test]
fn one_iteration_coefficients() {
    // z1 = 0.5^2 + 0.5 = 0.75; with the updated z:
    // A = 2 z A0 + 1 = 2.5, B = 2 z B0 + A0^2 = 1, C = 2 z C0 + 2 A0 B0 = 0,
    // D = 2 z D0 + 2 A0 C0 + B0^2 = 0.
    let z = complex("0.5", "0.0");
    let c = complex("0.5", "0.0");
    let r = compute_series_coefficients(&z, &c, &real_from_u32(2, PRECISION), 1);
    assert_eq!(as_pair(r.a), (2.5, 0.0));
    assert_eq!(as_pair(r.b), (1.0, 0.0));
    assert_eq!(as_pair(r.c), (0.0, 0.0));
    assert_eq!(as_pair(r.d), (0.0, 0.0));
    assert_eq!(r.escaped_at, None);
}

#[test]
fn working_precision_is_the_maximum_of_the_five() {
    // Component precisions {80, 64, 64, 80, 50}: the maximum, 80, governs.
    let z = BigComplex {
        re: real_parse("0.1", 80).unwrap(),
        im: real_parse("0.2", 64).unwrap(),
    };
    let c = BigComplex {
        re: real_parse("0.3", 64).unwrap(),
        im: real_parse("0.4", 80).unwrap(),
    };
    let radius = real_parse("2.0", 50).unwrap();
    assert_eq!(working_precision(&z, &c, &radius), 80);
}

#[test]
fn working_precision_recomputed_per_call() {
    let z = BigComplex {
        re: real_parse("0.1", 32).unwrap(),
        im: real_parse("0.2", 32).unwrap(),
    };
    let c = BigComplex {
        re: real_parse("0.3", 32).unwrap(),
        im: real_parse("0.4", 32).unwrap(),
    };
    let radius = real_parse("2.0", 96).unwrap();
    assert_eq!(working_precision(&z, &c, &radius), 96);
}

#[test]
fn series_surfaces_escape_index() {
    let z = BigComplex {
        re: real_from_u32(0, PRECISION),
        im: real_from_u32(0, PRECISION),
    };
    let c = complex("2.0000000001", "0.0");
    let r = compute_series_coefficients(&z, &c, &real_from_u32(2, PRECISION), 2);
    assert_eq!(r.escaped_at, Some(0));
}

#[test]
fn series_deterministic_on_bit_identical_inputs() {
    let mk = || {
        (
            complex("0.001", "0.002"),
            complex("-0.1011", "0.9563"),
            real_from_u32(2, PRECISION),
        )
    };
    let (z1, c1, r1) = mk();
    let (z2, c2, r2) = mk();
    let s1 = compute_series_coefficients(&z1, &c1, &r1, 32);
    let s2 = compute_series_coefficients(&z2, &c2, &r2, 32);
    assert_eq!(s1.a, s2.a);
    assert_eq!(s1.b, s2.b);
    assert_eq!(s1.c, s2.c);
    assert_eq!(s1.d, s2.d);
    assert_eq!(s1.escaped_at, s2.escaped_at);
}

use deepzoom::bigfloat::RealRepr;

#[test]
fn series_survives_out_of_range_values() {
    // A start value whose square leaves the finite range: the reference
    // trajectory freezes and is reported escaped; the coefficients evolve
    // while their own arithmetic stays finite and freeze after that, and the
    // engine completes without failing.
    let z = BigComplex {
        re: BigReal {
            prec: PRECISION,
            repr: RealRepr::Finite { neg: false, limbs: vec![1], exp: i64::MAX / 2 },
        },
        im: real_from_u32(0, PRECISION),
    };
    let c = complex("0.0", "0.0");
    let r = compute_series_coefficients(&z, &c, &real_from_u32(2, PRECISION), 3);
    assert_eq!(r.escaped_at, Some(0));
    assert!(f32::from_bits(r.a.re_bits).is_infinite());
}
