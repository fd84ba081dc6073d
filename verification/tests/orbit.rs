use deepzoom::bigfloat::{real_from_u32, real_parse, BigComplex, BigReal, RealRepr};
use deepzoom::orbit::compute_reference_orbit;

const PRECISION: u32 = 64;

fn num(text: &str) -> BigReal {
    real_parse(text, PRECISION).unwrap()
}

fn complex(re: &str, im: &str) -> BigComplex {
    BigComplex { re: num(re), im: num(im) }
}

fn radius_two() -> BigReal {
    real_from_u32(2, PRECISION)
}

#[test]
fn test_compute_reference_orbit() {
    let c = complex("0.5", "0.0");
    let z = complex("0.5", "0.0");
    let orbit = compute_reference_orbit(&z, &c, &radius_two(), 1);
    assert_eq!(
        (
            f32::from_bits(orbit.points[0].re_bits),
            f32::from_bits(orbit.points[0].im_bits)
        ),
        (0.75, 0.0)
    );

    let c = complex("0.5", "0.0");
    let z = complex("0.5001", "0.001");
    let orbit = compute_reference_orbit(&z, &c, &radius_two(), 1);
    assert_eq!(
        (
            f32::from_bits(orbit.points[0].re_bits),
            f32::from_bits(orbit.points[0].im_bits)
        ),
        (0.750099, 0.0010002)
    );
}

#[test]
fn one_iteration_exact() {
    let c = complex("0.5", "0.0");
    let z = complex("0.5", "0.0");
    let orbit = compute_reference_orbit(&z, &c, &radius_two(), 1);
    assert_eq!(orbit.points.len(), 1);
    assert_eq!(f32::from_bits(orbit.points[0].re_bits), 0.75);
    assert_eq!(f32::from_bits(orbit.points[0].im_bits), 0.0);
    assert_eq!(orbit.escaped_at, None);
}

#[test]
fn one_iteration_perturbed_within_tolerance() {
    let c = complex("0.5", "0.0");
    let z = complex("0.5001", "0.001");
    let orbit = compute_reference_orbit(&z, &c, &radius_two(), 1);
    let re = f32::from_bits(orbit.points[0].re_bits);
    let im = f32::from_bits(orbit.points[0].im_bits);
    assert!((re - 0.750099f32).abs() < 1e-6);
    assert!((im - 0.0010002f32).abs() < 1e-6);
}

#[test]
fn escape_threshold_strict_on_exact_equality() {
    // z1 = 0^2 + 2 = 2, so |z1|^2 equals radius^2 = 4 exactly: not escaped.
    let z = BigComplex {
        re: real_from_u32(0, PRECISION),
        im: real_from_u32(0, PRECISION),
    };
    let c = complex("2.0", "0.0");
    let orbit = compute_reference_orbit(&z, &c, &radius_two(), 1);
    assert_eq!(orbit.escaped_at, None);
}

#[test]
fn escape_flagged_at_exact_index() {
    // Any epsilon beyond the radius escapes, and the report is the first
    // escaping index even though later iterates escape too.
    let z = BigComplex {
        re: real_from_u32(0, PRECISION),
        im: real_from_u32(0, PRECISION),
    };
    let c = complex("2.0000000001", "0.0");
    let orbit = compute_reference_orbit(&z, &c, &radius_two(), 3);
    assert_eq!(orbit.escaped_at, Some(0));
    assert_eq!(orbit.points.len(), 3);
}

#[test]
fn escape_index_counts_iterations() {
    // c = 1.2: z1 = 1.2 (|z1|^2 = 1.44), z2 = 2.64 (|z2|^2 > 4): escape at 1.
    let z = BigComplex {
        re: real_from_u32(0, PRECISION),
        im: real_from_u32(0, PRECISION),
    };
    let c = complex("1.2", "0.0");
    let orbit = compute_reference_orbit(&z, &c, &radius_two(), 4);
    assert_eq!(orbit.escaped_at, Some(1));
}

#[test]
fn deterministic_on_bit_identical_inputs() {
    let mk = || {
        (
            complex("-0.74364388703715870475", "0.13182590420531251232"),
            complex("-0.74364388703715870475", "0.13182590420531251232"),
            radius_two(),
        )
    };
    let (z1, c1, r1) = mk();
    let (z2, c2, r2) = mk();
    let o1 = compute_reference_orbit(&z1, &c1, &r1, 64);
    let o2 = compute_reference_orbit(&z2, &c2, &r2, 64);
    assert_eq!(o1.points, o2.points);
    assert_eq!(o1.escaped_at, o2.escaped_at);
}

#[test]
fn orbit_length_matches_capacity() {
    let c = complex("0.1", "0.1");
    let z = complex("0.0", "0.0");
    let orbit = compute_reference_orbit(&z, &c, &radius_two(), 17);
    assert_eq!(orbit.points.len(), 17);
    assert_eq!(orbit.escaped_at, None);
}

#[test]
fn saturated_magnitude_reports_escape_without_failing() {
    // A finite value with an enormous exponent: its square leaves the finite
    // range, so the trajectory freezes and counts as escaped at once.
    let huge = || BigReal {
        prec: PRECISION,
        repr: RealRepr::Finite { neg: false, limbs: vec![1], exp: i64::MAX / 2 },
    };
    let z = BigComplex { re: huge(), im: real_from_u32(0, PRECISION) };
    let c = complex("0.0", "0.0");
    let orbit = compute_reference_orbit(&z, &c, &radius_two(), 3);
    assert_eq!(orbit.points.len(), 3);
    assert_eq!(orbit.escaped_at, Some(0));
}

#[test]
fn infinite_radius_never_escapes() {
    let z = BigComplex {
        re: real_from_u32(0, PRECISION),
        im: real_from_u32(0, PRECISION),
    };
    let c = complex("3.0", "0.0");
    let radius = BigReal { prec: PRECISION, repr: RealRepr::Infinite { neg: false } };
    let orbit = compute_reference_orbit(&z, &c, &radius, 2);
    assert_eq!(orbit.escaped_at, None);
}
