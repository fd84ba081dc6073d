//! Mathematical model of arbitrary-precision reals.
//!
//! Every finite arbitrary-precision value is exactly a dyadic number
//! `(-1)^neg * mag * 2^exp`; a value also carries the bit-width (precision)
//! it was rounded to.  Contracts throughout the crate are stated over these
//! models.

use vstd::prelude::*;
use vstd::arithmetic::power2::pow2;

verus! {

/// The exact content of an arbitrary-precision real value.
pub enum RealVal {
    /// `(-1)^neg * mag * 2^exp`; `mag == 0` with `neg` set is a negative zero.
    Finite { neg: bool, mag: nat, exp: int },
    Infinite { neg: bool },
}

/// An arbitrary-precision real together with the precision it carries.
pub struct RealModel {
    pub prec: nat,
    pub val: RealVal,
}

/// An arbitrary-precision complex value; the two parts carry independent
/// precisions.
pub struct ComplexModel {
    pub re: RealModel,
    pub im: RealModel,
}

/// The signed integer magnitude of a finite value, ignoring the exponent.
pub open spec fn signed_mag(neg: bool, mag: nat) -> int {
    if neg {
        -(mag as int)
    } else {
        mag as int
    }
}

pub open spec fn min_exp(e1: int, e2: int) -> int {
    if e1 <= e2 {
        e1
    } else {
        e2
    }
}

/// The integer obtained by rescaling `(-1)^neg * mag * 2^exp` to the
/// exponent `base`; meaningful when `base <= exp`.
pub open spec fn scaled(neg: bool, mag: nat, exp: int, base: int) -> int {
    signed_mag(neg, mag) * pow2((exp - base) as nat) as int
}

/// Exact numeric order on two finite values.
pub open spec fn fin_lt(n1: bool, m1: nat, e1: int, n2: bool, m2: nat, e2: int) -> bool {
    scaled(n1, m1, e1, min_exp(e1, e2)) < scaled(n2, m2, e2, min_exp(e1, e2))
}

/// Exact numeric equality on two finite values (so `-0 == +0`, and
/// `1 * 2^0 == 2 * 2^-1`).
pub open spec fn fin_eq(n1: bool, m1: nat, e1: int, n2: bool, m2: nat, e2: int) -> bool {
    scaled(n1, m1, e1, min_exp(e1, e2)) == scaled(n2, m2, e2, min_exp(e1, e2))
}

/// Whether a value is finite and equals the integer `k` exactly.
pub open spec fn fin_is_int(v: RealVal, k: int) -> bool {
    match v {
        RealVal::Finite { neg, mag, exp } => if exp >= 0 {
            signed_mag(neg, mag) * pow2(exp as nat) as int == k
        } else {
            signed_mag(neg, mag) == k * pow2((-exp) as nat) as int
        },
        RealVal::Infinite { .. } => false,
    }
}

/// The strict `>` order of arbitrary-precision comparison: exact numeric
/// order on finite values, infinities at the two ends.
pub open spec fn real_gt_val(a: RealVal, b: RealVal) -> bool {
    match (a, b) {
        (RealVal::Infinite { neg: na }, RealVal::Infinite { neg: nb }) => !na && nb,
        (RealVal::Infinite { neg: na }, RealVal::Finite { .. }) => !na,
        (RealVal::Finite { .. }, RealVal::Infinite { neg: nb }) => nb,
        (
            RealVal::Finite { neg: n1, mag: m1, exp: e1 },
            RealVal::Finite { neg: n2, mag: m2, exp: e2 },
        ) => fin_lt(n2, m2, e2, n1, m1, e1),
    }
}

/// Numeric equality of two values: finite values compare exactly (so
/// `-0 == +0`), infinities by their sign.
pub open spec fn real_eq_val(a: RealVal, b: RealVal) -> bool {
    match (a, b) {
        (RealVal::Infinite { neg: na }, RealVal::Infinite { neg: nb }) => na == nb,
        (RealVal::Infinite { .. }, RealVal::Finite { .. }) => false,
        (RealVal::Finite { .. }, RealVal::Infinite { .. }) => false,
        (
            RealVal::Finite { neg: n1, mag: m1, exp: e1 },
            RealVal::Finite { neg: n2, mag: m2, exp: e2 },
        ) => fin_eq(n1, m1, e1, n2, m2, e2),
    }
}

/// A well-formed real model: a positive precision that fits the host word,
/// and a significand that fits that precision up to the one guard digit the
/// arbitrary-precision representation allows.
pub open spec fn wf_real(r: RealModel) -> bool {
    &&& 1 <= r.prec <= u32::MAX
    &&& match r.val {
        RealVal::Finite { mag, .. } => bit_len(odd_of(mag)) <= r.prec + 1,
        RealVal::Infinite { .. } => true,
    }
}

pub open spec fn wf_complex(c: ComplexModel) -> bool {
    wf_real(c.re) && wf_real(c.im)
}

/// The number of binary digits of `m`.
pub open spec fn bit_len(m: nat) -> nat
    decreases m,
{
    if m == 0 {
        0
    } else {
        1 + bit_len(m / 2)
    }
}

/// The odd factor of a positive integer (`m` with its trailing binary zeros
/// removed); 0 for 0.
pub open spec fn odd_of(m: nat) -> nat
    decreases m,
{
    if m == 0 {
        0
    } else if m % 2 == 1 {
        m
    } else {
        odd_of(m / 2)
    }
}

/// The number of trailing binary zeros of a positive integer; 0 for 0.
pub open spec fn twos_of(m: nat) -> nat
    decreases m,
{
    if m == 0 {
        0
    } else if m % 2 == 1 {
        0
    } else {
        1 + twos_of(m / 2)
    }
}

/// The value of a little-endian sequence of 64-bit words.
pub open spec fn limbs_val(s: Seq<u64>) -> nat
    decreases s.len(),
{
    if s.len() == 0 {
        0
    } else {
        (s[0] as nat) + pow2(64) * limbs_val(s.subrange(1, s.len() as int))
    }
}

/// The same value at a different precision.
pub open spec fn at_prec(m: RealModel, p: nat) -> RealModel {
    RealModel { prec: p, val: m.val }
}

/// The escape threshold is strict: a squared magnitude that exactly equals
/// the squared radius is not beyond it; only a strictly greater one is.
pub proof fn lemma_escape_strict(a: RealVal, b: RealVal)
    ensures
        real_eq_val(a, b) ==> !real_gt_val(a, b),
{
}

} // verus!
