//! The reference orbit engine.
//!
//! Given an initial value `z0`, the reference point `c` and an escape radius,
//! it iterates the recurrence `z <- z^2 + c` for a configured number of steps
//! at the working precision (the maximum precision among the inputs), casts
//! every iterate down to rendering precision, and surfaces the first
//! iteration at which the trajectory escapes — the squared magnitude of an
//! iterate strictly exceeds the squared radius — as an explicit index.
//!
//! Arithmetic outside the finite range freezes the recurrence: once a value
//! or an intermediate saturates to an infinity the iterate stops moving, and
//! a squared magnitude outside the finite range compares as a positive
//! infinity, so such a trajectory is reported as escaped whenever the radius
//! is finite.

use vstd::prelude::*;
use crate::model::{
    RealModel, RealVal, ComplexModel, wf_real, wf_complex, real_gt_val, real_eq_val, at_prec,
};
use crate::bigfloat::{
    BigReal, BigComplex, ReducedComplex, reduce_model, complex_reduce, complex_sqr,
    complex_add_checked, complex_with_prec, real_with_prec, real_sqr, real_add, real_gt,
    real_is_finite, complex_is_finite, real_infinite, working_precision, csq_checked,
    cadd_checked, fsq_round, fadd_round, rfin, cfin, wp5, raise_c, all_prec,
};

verus! {

/// The outcome of one reference-orbit computation: the iterates `z_1 .. z_n`
/// cast to rendering precision, and the first iteration index at which the
/// trajectory escaped, if any.  Entries beyond the escape index are no longer
/// a valid escape-free reference and must not feed perturbation math.
pub struct ReferenceOrbit {
    pub points: Vec<ReducedComplex>,
    pub escaped_at: Option<usize>,
}

/// One step of the recurrence, `z^2 + c`, where it can be carried out.
pub open spec fn step_model(z: ComplexModel, c: ComplexModel) -> Option<ComplexModel> {
    match csq_checked(z) {
        Some(zz) => cadd_checked(zz, c),
        None => None,
    }
}

/// The iterate `z_i` of `z <- z^2 + c` started at `z0`: the recurrence where
/// the step can be carried out, frozen from the first step that cannot.
pub open spec fn orbit_state(z0: ComplexModel, c: ComplexModel, i: nat) -> ComplexModel
    decreases i,
{
    if i == 0 {
        z0
    } else {
        let prev = orbit_state(z0, c, (i - 1) as nat);
        match step_model(prev, c) {
            Some(next) => next,
            None => prev,
        }
    }
}

/// The orbit entry at index `i`: the iterate `z_{i+1}` cast down.
pub open spec fn orbit_entry(z0: ComplexModel, c: ComplexModel, i: nat) -> ReducedComplex {
    reduce_model(orbit_state(z0, c, i + 1))
}

/// The squared magnitude used by the escape test: the two parts squared at
/// their own precision and summed; a positive infinity where the value or the
/// arithmetic leaves the finite range.
pub open spec fn sqmag_val(z: ComplexModel) -> RealVal {
    if cfin(z) {
        let r2 = fsq_round(z.re);
        let i2 = fsq_round(z.im);
        if rfin(r2) && rfin(i2) {
            fadd_round(r2, i2).val
        } else {
            RealVal::Infinite { neg: false }
        }
    } else {
        RealVal::Infinite { neg: false }
    }
}

/// The squared radius: squared at the working precision, a positive infinity
/// for an infinite radius.
pub open spec fn rsq_model(rad: RealModel, p: nat) -> RealModel {
    if rfin(rad) {
        fsq_round(at_prec(rad, p))
    } else {
        RealModel { prec: p, val: RealVal::Infinite { neg: false } }
    }
}

/// Whether the iterate `z_{i+1}` escapes: its squared magnitude is strictly
/// greater than the squared radius.
pub open spec fn escape_flag(z0: ComplexModel, c: ComplexModel, rsq: RealModel, i: nat) -> bool {
    real_gt_val(sqmag_val(orbit_state(z0, c, i + 1)), rsq.val)
}

/// The escape threshold is strict: an iterate whose squared magnitude equals
/// the squared radius exactly is not flagged as escaped, and one whose
/// squared magnitude is greater is flagged at that iteration index.
pub proof fn lemma_escape_threshold_strict(
    z0: ComplexModel,
    c: ComplexModel,
    rsq: RealModel,
    i: nat,
)
    ensures
        real_eq_val(sqmag_val(orbit_state(z0, c, i + 1)), rsq.val) ==> !escape_flag(
            z0,
            c,
            rsq,
            i,
        ),
        real_gt_val(sqmag_val(orbit_state(z0, c, i + 1)), rsq.val) ==> escape_flag(z0, c, rsq, i),
{
    crate::model::lemma_escape_strict(sqmag_val(orbit_state(z0, c, i + 1)), rsq.val);
}

/// The first index `i < n` whose iterate escapes, if any.
pub open spec fn escape_index(z0: ComplexModel, c: ComplexModel, rsq: RealModel, n: nat) -> Option<
    int,
>
    decreases n,
{
    if n == 0 {
        None
    } else {
        match escape_index(z0, c, rsq, (n - 1) as nat) {
            Some(k) => Some(k),
            None => if escape_flag(z0, c, rsq, (n - 1) as nat) {
                Some(n - 1)
            } else {
                None
            },
        }
    }
}

/// No iterate among the first `m` is flagged, so no escape is reported.
proof fn lemma_escape_index_none(z0: ComplexModel, c: ComplexModel, rsq: RealModel, m: nat)
    requires
        forall|j: nat| j < m ==> !escape_flag(z0, c, rsq, j),
    ensures
        escape_index(z0, c, rsq, m) is None,
    decreases m,
{
    if m > 0 {
        lemma_escape_index_none(z0, c, rsq, (m - 1) as nat);
    }
}

/// What a reported escape means: a reported index is within the run, its
/// iterate is flagged and no earlier one is; no report means no iterate of
/// the run is flagged.
pub proof fn lemma_escape_index_sound(z0: ComplexModel, c: ComplexModel, rsq: RealModel, n: nat)
    ensures
        match escape_index(z0, c, rsq, n) {
            Some(k) => 0 <= k < n && escape_flag(z0, c, rsq, k as nat) && (forall|j: nat|
                j < k ==> !escape_flag(z0, c, rsq, j)),
            None => forall|j: nat| j < n ==> !escape_flag(z0, c, rsq, j),
        },
    decreases n,
{
    if n > 0 {
        lemma_escape_index_sound(z0, c, rsq, (n - 1) as nat);
    }
}

/// An escape is reported at exactly the first flagged index: if iterate `i`
/// is flagged and no earlier one is, every run of more than `i` steps reports
/// index `i`.
pub proof fn lemma_escape_index_first(
    z0: ComplexModel,
    c: ComplexModel,
    rsq: RealModel,
    i: nat,
    n: nat,
)
    requires
        i < n,
        escape_flag(z0, c, rsq, i),
        forall|j: nat| j < i ==> !escape_flag(z0, c, rsq, j),
    ensures
        escape_index(z0, c, rsq, n) == Some(i as int),
    decreases n,
{
    if n == i + 1 {
        lemma_escape_index_none(z0, c, rsq, i);
    } else {
        lemma_escape_index_first(z0, c, rsq, i, (n - 1) as nat);
    }
}

/// What the reference orbit engine promises: with every input raised to the
/// working precision, the `n` entries are the reduced iterates of the
/// recurrence, and the escape report is exactly the first escaping index.
pub open spec fn orbit_result_matches(
    r: ReferenceOrbit,
    z0: ComplexModel,
    c: ComplexModel,
    rad: RealModel,
    n: nat,
) -> bool {
    let p = wp5(z0, c, rad);
    let z0r = raise_c(z0, p);
    let cr = raise_c(c, p);
    let rsq = rsq_model(rad, p);
    &&& r.points.len() == n
    &&& forall|i: int| 0 <= i < n ==> #[trigger] r.points@[i] == orbit_entry(z0r, cr, i as nat)
    &&& match r.escaped_at {
        Some(k) => escape_index(z0r, cr, rsq, n) == Some(k as int),
        None => escape_index(z0r, cr, rsq, n) is None,
    }
}

/// Computes the squared magnitude of the current iterate and compares it
/// against the squared radius, strictly.
pub(crate) fn escape_test(z: &BigComplex, rsqr: &BigReal, p: u32) -> (flag: bool)
    requires
        1 <= p,
        wf_complex(z@),
        wf_real(rsqr@),
    ensures
        flag == real_gt_val(sqmag_val(z@), rsqr@.val),
{
    if complex_is_finite(z) {
        let re2 = real_sqr(&z.re);
        let im2 = real_sqr(&z.im);
        if real_is_finite(&re2) && real_is_finite(&im2) {
            let sum = real_add(&re2, &im2);
            real_gt(&sum, rsqr)
        } else {
            real_gt(&real_infinite(p), rsqr)
        }
    } else {
        real_gt(&real_infinite(p), rsqr)
    }
}

/// Computes the reference orbit `z_1 .. z_n` of `z <- z^2 + c`, evaluated
/// entirely at the maximum precision present among the inputs, each iterate
/// cast down to rendering precision; the first escaping iteration is
/// surfaced as an explicit index.
pub fn compute_reference_orbit(
    z0: &BigComplex,
    c: &BigComplex,
    radius: &BigReal,
    n: usize,
) -> (r: ReferenceOrbit)
    requires
        wf_complex(z0@),
        wf_complex(c@),
        wf_real(radius@),
    ensures
        orbit_result_matches(r, z0@, c@, radius@, n as nat),
{
    let p = working_precision(z0, c, radius);
    let zp = complex_with_prec(z0, p);
    let cp = complex_with_prec(c, p);
    let radp = real_with_prec(radius, p);
    let rsqr = if real_is_finite(&radp) {
        real_sqr(&radp)
    } else {
        real_infinite(p)
    };
    let ghost z0r = raise_c(z0@, p as nat);
    let ghost cr = raise_c(c@, p as nat);
    let mut points: Vec<ReducedComplex> = Vec::new();
    let mut escaped_at: Option<usize> = None;
    let mut z = zp;
    let mut i: usize = 0;
    while i < n
        invariant
            i <= n,
            1 <= p,
            wf_complex(z@),
            wf_complex(cp@),
            wf_real(rsqr@),
            all_prec(z@, p as nat),
            all_prec(cp@, p as nat),
            cp@ == cr,
            rsqr@ == rsq_model(radius@, p as nat),
            z@ == orbit_state(z0r, cr, i as nat),
            points@.len() == i,
            forall|j: int| 0 <= j < i ==> #[trigger] points@[j] == orbit_entry(z0r, cr, j as nat),
            match escaped_at {
                Some(k) => escape_index(z0r, cr, rsqr@, i as nat) == Some(k as int),
                None => escape_index(z0r, cr, rsqr@, i as nat) is None,
            },
        decreases n - i,
    {
        match complex_sqr(&z) {
            Some(zz) => match complex_add_checked(&zz, &cp) {
                Some(next) => {
                    z = next;
                },
                None => {},
            },
            None => {},
        }
        let flag = escape_test(&z, &rsqr, p);
        if flag && escaped_at.is_none() {
            escaped_at = Some(i);
        }
        points.push(complex_reduce(&z));
        i = i + 1;
    }
    ReferenceOrbit { points, escaped_at }
}

/// Invoking the engine twice on bit-identical inputs yields bit-identical
/// results: any two outcomes that meet the engine's contract for the same
/// inputs agree on every entry and on the escape report.
pub proof fn lemma_orbit_deterministic(
    z0: ComplexModel,
    c: ComplexModel,
    rad: RealModel,
    n: nat,
    r1: ReferenceOrbit,
    r2: ReferenceOrbit,
)
    requires
        orbit_result_matches(r1, z0, c, rad, n),
        orbit_result_matches(r2, z0, c, rad, n),
    ensures
        r1.points@ == r2.points@,
        r1.escaped_at == r2.escaped_at,
{
    assert(r1.points@ =~= r2.points@);
    match (r1.escaped_at, r2.escaped_at) {
        (Some(k1), Some(k2)) => {
            assert(k1 as int == k2 as int);
        },
        _ => {},
    }
}

} // verus!
