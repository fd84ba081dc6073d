//! The series approximation engine.
//!
//! For a reference point `c` and start value `z0`, it derives four Taylor
//! coefficients `A, B, C, D` such that after `k` iterations a trajectory
//! perturbed by a small `delta` is approximated by
//! `z_k + A delta + B delta^2 + C delta^3 + D delta^4`.  Per iteration the
//! reference value is updated first, `z <- z^2 + c`, and the coefficients then
//! evolve with the updated `z` and the previous coefficient values:
//! `A <- 2zA + 1`, `B <- 2zB + A^2`, `C <- 2zC + 2AB`, `D <- 2zD + 2AC + B^2`.
//! All coefficient arithmetic is carried out at the working precision, the
//! maximum precision among the five scalar components supplied, recomputed on
//! every call.  As in the orbit engine, a value that leaves the finite range
//! freezes the recurrence it feeds.

use vstd::prelude::*;
use crate::model::{RealModel, RealVal, ComplexModel, wf_real, wf_complex, fin_is_int};
use crate::bigfloat::{
    BigReal, BigComplex, ReducedComplex, reduce_model, complex_reduce, complex_sqr, complex_add_checked,
    complex_mul, complex_with_prec, real_with_prec, real_sqr, real_is_finite, real_infinite,
    real_from_u32, working_precision, csq_checked, cadd_checked, cmul_checked, wp5, raise_c,
    all_prec,
};
use crate::orbit::{orbit_state, escape_index, escape_test, rsq_model};

verus! {

/// The outcome of one series computation: the four coefficients cast to
/// rendering precision, and the first iteration index at which the reference
/// trajectory escaped, if any.  The coefficients are not a valid perturbation
/// basis past that index.
pub struct SeriesCoefficients {
    pub a: ReducedComplex,
    pub b: ReducedComplex,
    pub c: ReducedComplex,
    pub d: ReducedComplex,
    pub escaped_at: Option<usize>,
}

/// The real number one at precision `p`.
pub open spec fn one_rm(p: nat) -> RealModel {
    RealModel { prec: p, val: RealVal::Finite { neg: false, mag: 1, exp: 0 } }
}

/// The real number zero at precision `p`.
pub open spec fn zero_rm(p: nat) -> RealModel {
    RealModel { prec: p, val: RealVal::Finite { neg: false, mag: 0, exp: 0 } }
}

/// The complex identity seed `1 + 0i` at precision `p`.
pub open spec fn cone(p: nat) -> ComplexModel {
    ComplexModel { re: one_rm(p), im: zero_rm(p) }
}

/// The complex zero seed `0 + 0i` at precision `p`.
pub open spec fn czero(p: nat) -> ComplexModel {
    ComplexModel { re: zero_rm(p), im: zero_rm(p) }
}

/// Twice a value plus another: two exact-sum doublings, where the operands
/// stay finite.
pub open spec fn double_add_checked(x: ComplexModel, y: ComplexModel) -> Option<ComplexModel> {
    match cadd_checked(x, x) {
        Some(xx) => cadd_checked(xx, y),
        None => None,
    }
}

/// One coefficient update from the updated reference value `zn` and the
/// previous coefficient values, where every operation can be carried out:
/// `A' = 2 zn A + one`, `B' = 2 zn B + A^2`, `C' = 2 zn C + 2AB`,
/// `D' = 2 zn D + 2AC + B^2`.
pub open spec fn coeff_step_checked(
    zn: ComplexModel,
    a: ComplexModel,
    b: ComplexModel,
    c: ComplexModel,
    d: ComplexModel,
    one: ComplexModel,
) -> Option<(ComplexModel, ComplexModel, ComplexModel, ComplexModel)> {
    match cmul_checked(zn, a) {
        Some(za) => match double_add_checked(za, one) {
            Some(na) => match cmul_checked(zn, b) {
                Some(zb) => match csq_checked(a) {
                    Some(asq) => match double_add_checked(zb, asq) {
                        Some(nb) => match cmul_checked(zn, c) {
                            Some(zc) => match cmul_checked(a, b) {
                                Some(ab) => match cadd_checked(ab, ab) {
                                    Some(ab2) => match double_add_checked(zc, ab2) {
                                        Some(nc) => match cmul_checked(zn, d) {
                                            Some(zd) => match cmul_checked(a, c) {
                                                Some(ac) => match cadd_checked(ac, ac) {
                                                    Some(ac2) => match double_add_checked(zd, ac2) {
                                                        Some(t) => match csq_checked(b) {
                                                            Some(bsq) => match cadd_checked(
                                                                t,
                                                                bsq,
                                                            ) {
                                                                Some(nd) => Some(
                                                                    (na, nb, nc, nd),
                                                                ),
                                                                None => None,
                                                            },
                                                            None => None,
                                                        },
                                                        None => None,
                                                    },
                                                    None => None,
                                                },
                                                None => None,
                                            },
                                            None => None,
                                        },
                                        None => None,
                                    },
                                    None => None,
                                },
                                None => None,
                            },
                            None => None,
                        },
                        None => None,
                    },
                    None => None,
                },
                None => None,
            },
            None => None,
        },
        None => None,
    }
}

/// The coefficients after `k` iterations: evolved with the updated reference
/// value while every operation stays in the finite range, frozen from the
/// first update that does not.
pub open spec fn series_coeffs(z0: ComplexModel, c: ComplexModel, p: nat, k: nat) -> (
    ComplexModel,
    ComplexModel,
    ComplexModel,
    ComplexModel,
)
    decreases k,
{
    if k == 0 {
        (cone(p), czero(p), czero(p), czero(p))
    } else {
        let co = series_coeffs(z0, c, p, (k - 1) as nat);
        match coeff_step_checked(orbit_state(z0, c, k), co.0, co.1, co.2, co.3, cone(p)) {
            Some(nco) => nco,
            None => co,
        }
    }
}

/// What the series engine promises: with every input raised to the working
/// precision, the four results are the reduced model coefficients after `k`
/// iterations, and the escape report is exactly the first escaping index.
pub open spec fn series_result_matches(
    r: SeriesCoefficients,
    z0: ComplexModel,
    c: ComplexModel,
    rad: RealModel,
    k: nat,
) -> bool {
    let p = wp5(z0, c, rad);
    let z0r = raise_c(z0, p);
    let cr = raise_c(c, p);
    let rsq = rsq_model(rad, p);
    let (ma, mb, mc, md) = series_coeffs(z0r, cr, p, k);
    &&& r.a == reduce_model(ma)
    &&& r.b == reduce_model(mb)
    &&& r.c == reduce_model(mc)
    &&& r.d == reduce_model(md)
    &&& match r.escaped_at {
        Some(j) => escape_index(z0r, cr, rsq, k) == Some(j as int),
        None => escape_index(z0r, cr, rsq, k) is None,
    }
}

/// At zero iterations the series coefficients equal the identity seed:
/// `A = 1 + 0i` and `B = C = D = 0 + 0i` exactly, at any working precision.
pub proof fn lemma_series_identity_seed(z0: ComplexModel, c: ComplexModel, p: nat)
    ensures
        series_coeffs(z0, c, p, 0) == (cone(p), czero(p), czero(p), czero(p)),
        fin_is_int(cone(p).re.val, 1),
        fin_is_int(cone(p).im.val, 0),
        fin_is_int(czero(p).re.val, 0),
        fin_is_int(czero(p).im.val, 0),
{
    vstd::arithmetic::power2::lemma2_to64();
    assert(vstd::arithmetic::power2::pow2(0) == 1);
    assert(crate::model::signed_mag(false, 1) == 1);
    assert(crate::model::signed_mag(false, 0) == 0);
    assert(fin_is_int(one_rm(p).val, 1));
    assert(fin_is_int(zero_rm(p).val, 0));
}

/// Twice a value plus another, as two exact-sum doublings.
fn double_add(x: &BigComplex, y: &BigComplex) -> (r: Option<BigComplex>)
    requires
        wf_complex(x@),
        wf_complex(y@),
    ensures
        match r {
            Some(v) => double_add_checked(x@, y@) == Some(v@) && wf_complex(v@) && (forall|p: nat|
                all_prec(x@, p) && all_prec(y@, p) ==> all_prec(v@, p)),
            None => double_add_checked(x@, y@) is None,
        },
{
    match complex_add_checked(x, x) {
        Some(xx) => complex_add_checked(&xx, y),
        None => None,
    }
}

/// One coefficient update against the updated reference value; nothing where
/// any operation leaves the finite range.
#[verifier::rlimit(50)]
fn coeff_step(
    zn: &BigComplex,
    a: &BigComplex,
    b: &BigComplex,
    c: &BigComplex,
    d: &BigComplex,
    one: &BigComplex,
) -> (r: Option<(BigComplex, BigComplex, BigComplex, BigComplex)>)
    requires
        wf_complex(zn@),
        wf_complex(a@),
        wf_complex(b@),
        wf_complex(c@),
        wf_complex(d@),
        wf_complex(one@),
    ensures
        match r {
            Some(v) => coeff_step_checked(zn@, a@, b@, c@, d@, one@) == Some(
                (v.0@, v.1@, v.2@, v.3@),
            ) && wf_complex(v.0@) && wf_complex(v.1@) && wf_complex(v.2@) && wf_complex(v.3@) && (
            forall|p: nat|
                all_prec(zn@, p) && all_prec(a@, p) && all_prec(b@, p) && all_prec(c@, p)
                    && all_prec(d@, p) && all_prec(one@, p) ==> all_prec(v.0@, p) && all_prec(
                    v.1@,
                    p,
                ) && all_prec(v.2@, p) && all_prec(v.3@, p)),
            None => coeff_step_checked(zn@, a@, b@, c@, d@, one@) is None,
        },
{
    let za = match complex_mul(zn, a) {
        Some(v) => v,
        None => {
            return None;
        },
    };
    let na = match double_add(&za, one) {
        Some(v) => v,
        None => {
            return None;
        },
    };
    let zb = match complex_mul(zn, b) {
        Some(v) => v,
        None => {
            return None;
        },
    };
    let asq = match complex_sqr(a) {
        Some(v) => v,
        None => {
            return None;
        },
    };
    let nb = match double_add(&zb, &asq) {
        Some(v) => v,
        None => {
            return None;
        },
    };
    let zc = match complex_mul(zn, c) {
        Some(v) => v,
        None => {
            return None;
        },
    };
    let ab = match complex_mul(a, b) {
        Some(v) => v,
        None => {
            return None;
        },
    };
    let ab2 = match complex_add_checked(&ab, &ab) {
        Some(v) => v,
        None => {
            return None;
        },
    };
    let nc = match double_add(&zc, &ab2) {
        Some(v) => v,
        None => {
            return None;
        },
    };
    let zd = match complex_mul(zn, d) {
        Some(v) => v,
        None => {
            return None;
        },
    };
    let ac = match complex_mul(a, c) {
        Some(v) => v,
        None => {
            return None;
        },
    };
    let ac2 = match complex_add_checked(&ac, &ac) {
        Some(v) => v,
        None => {
            return None;
        },
    };
    let t = match double_add(&zd, &ac2) {
        Some(v) => v,
        None => {
            return None;
        },
    };
    let bsq = match complex_sqr(b) {
        Some(v) => v,
        None => {
            return None;
        },
    };
    let nd = match complex_add_checked(&t, &bsq) {
        Some(v) => v,
        None => {
            return None;
        },
    };
    Some((na, nb, nc, nd))
}

/// Computes the series coefficients after `iterations` steps, the reference
/// value updated first and the coefficients evolved with the updated value,
/// all at the working precision; the first escaping iteration is surfaced as
/// an explicit index.
pub fn compute_series_coefficients(
    z0: &BigComplex,
    c: &BigComplex,
    radius: &BigReal,
    iterations: usize,
) -> (r: SeriesCoefficients)
    requires
        wf_complex(z0@),
        wf_complex(c@),
        wf_real(radius@),
    ensures
        series_result_matches(r, z0@, c@, radius@, iterations as nat),
{
    let p = working_precision(z0, c, radius);
    let zp = complex_with_prec(z0, p);
    let cp = complex_with_prec(c, p);
    let radp = real_with_prec(radius, p);
    let rsqr = if real_is_finite(&radp) {
        real_sqr(&radp)
    } else {
        real_infinite(p)
    };
    let ghost z0r = raise_c(z0@, p as nat);
    let ghost cr = raise_c(c@, p as nat);
    let one = BigComplex { re: real_from_u32(1, p), im: real_from_u32(0, p) };
    let mut a = BigComplex { re: real_from_u32(1, p), im: real_from_u32(0, p) };
    let mut b = BigComplex { re: real_from_u32(0, p), im: real_from_u32(0, p) };
    let mut cc = BigComplex { re: real_from_u32(0, p), im: real_from_u32(0, p) };
    let mut d = BigComplex { re: real_from_u32(0, p), im: real_from_u32(0, p) };
    proof {
        lemma_seed_views();
    }
    let mut escaped_at: Option<usize> = None;
    let mut z = zp;
    let mut i: usize = 0;
    while i < iterations
        invariant
            i <= iterations,
            1 <= p,
            wf_complex(z@),
            wf_complex(cp@),
            wf_complex(one@),
            wf_complex(a@),
            wf_complex(b@),
            wf_complex(cc@),
            wf_complex(d@),
            wf_real(rsqr@),
            all_prec(z@, p as nat),
            all_prec(cp@, p as nat),
            all_prec(one@, p as nat),
            all_prec(a@, p as nat),
            all_prec(b@, p as nat),
            all_prec(cc@, p as nat),
            all_prec(d@, p as nat),
            cp@ == cr,
            one@ == cone(p as nat),
            rsqr@ == rsq_model(radius@, p as nat),
            z@ == orbit_state(z0r, cr, i as nat),
            (a@, b@, cc@, d@) == series_coeffs(z0r, cr, p as nat, i as nat),
            match escaped_at {
                Some(k) => escape_index(z0r, cr, rsqr@, i as nat) == Some(k as int),
                None => escape_index(z0r, cr, rsqr@, i as nat) is None,
            },
        decreases iterations - i,
    {
        match complex_sqr(&z) {
            Some(zz) => match complex_add_checked(&zz, &cp) {
                Some(next) => {
                    z = next;
                },
                None => {},
            },
            None => {},
        }
        let flag = escape_test(&z, &rsqr, p);
        if flag && escaped_at.is_none() {
            escaped_at = Some(i);
        }
        match coeff_step(&z, &a, &b, &cc, &d, &one) {
            Some(nco) => {
                let (na, nb, nc, nd) = nco;
                a = na;
                b = nb;
                cc = nc;
                d = nd;
            },
            None => {},
        }
        i = i + 1;
    }
    SeriesCoefficients {
        a: complex_reduce(&a),
        b: complex_reduce(&b),
        c: complex_reduce(&cc),
        d: complex_reduce(&d),
        escaped_at,
    }
}

/// The structural facts behind the seed construction: the integers 0 and 1
/// have the stated odd factor, trailing-zero count and bit length.
proof fn lemma_seed_views()
    ensures
        crate::model::odd_of(0) == 0,
        crate::model::twos_of(0) == 0,
        crate::model::bit_len(0) == 0,
        crate::model::odd_of(1) == 1,
        crate::model::twos_of(1) == 0,
        crate::model::bit_len(1) == 1,
{
    assert(crate::model::odd_of(0) == 0);
    assert(crate::model::twos_of(0) == 0);
    assert(crate::model::bit_len(0) == 0);
    assert(crate::model::odd_of(1) == 1);
    assert(crate::model::twos_of(1) == 0);
    assert(crate::model::bit_len(1) == 1 + crate::model::bit_len(0));
}

} // verus!
