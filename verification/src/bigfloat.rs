//! Arbitrary-precision real and complex values.
//!
//! `BigReal` holds, as plain data, the exact content of an arbitrary-precision
//! binary floating-point value: sign, significand words, binary exponent and
//! the precision it is rounded to.  The arithmetic itself is done by the
//! `dashu_float` crate behind trusted wrappers; each rounded result is pinned
//! by an uninterpreted name, so that every computation of this crate is a
//! function of its inputs.  Complex arithmetic is the crate's own code,
//! composed from the real operations.

use vstd::prelude::*;
use crate::model::{
    RealModel, RealVal, ComplexModel, wf_real, wf_complex, real_gt_val, bit_len, odd_of, twos_of,
    limbs_val, at_prec,
};

verus! {

/// An opaque box around the outside crate's float value; Verus sees nothing
/// inside it, and the trusted wrappers alone pass it around.
#[verifier::external_body]
pub(crate) struct FBox(dashu_float::FBig<dashu_float::round::mode::HalfEven, 2>);

/// The exact content of an arbitrary-precision real, as plain data.
pub enum RealRepr {
    /// `(-1)^neg * limbs * 2^exp`, little-endian words; empty or all-zero
    /// limbs with `neg` set denote a negative zero.
    Finite { neg: bool, limbs: Vec<u64>, exp: i64 },
    Infinite { neg: bool },
}

/// An arbitrary-precision real value carrying its own precision in bits.
pub struct BigReal {
    pub prec: u32,
    pub repr: RealRepr,
}

/// An arbitrary-precision complex value; the parts carry independent
/// precisions.
pub struct BigComplex {
    pub re: BigReal,
    pub im: BigReal,
}

impl View for BigReal {
    type V = RealModel;

    open spec fn view(&self) -> RealModel {
        RealModel {
            prec: self.prec as nat,
            val: match self.repr {
                RealRepr::Finite { neg, limbs, exp } => RealVal::Finite {
                    neg,
                    mag: limbs_val(limbs@),
                    exp: exp as int,
                },
                RealRepr::Infinite { neg } => RealVal::Infinite { neg },
            },
        }
    }
}

impl View for BigComplex {
    type V = ComplexModel;

    open spec fn view(&self) -> ComplexModel {
        ComplexModel { re: self.re@, im: self.im@ }
    }
}

/// What the arbitrary-precision square rounds to, at the operand's precision.
pub uninterp spec fn fsq_round(x: RealModel) -> RealModel;

/// What the arbitrary-precision product rounds to, at the larger of the two
/// precisions.
pub uninterp spec fn fmul_round(x: RealModel, y: RealModel) -> RealModel;

/// What the arbitrary-precision sum rounds to, at the larger of the two
/// precisions.
pub uninterp spec fn fadd_round(x: RealModel, y: RealModel) -> RealModel;

/// What the arbitrary-precision difference rounds to, at the larger of the
/// two precisions.
pub uninterp spec fn fsub_round(x: RealModel, y: RealModel) -> RealModel;

/// The bit pattern of the single-precision cast of a value.
pub uninterp spec fn f32_bits_of(x: RealModel) -> u32;

/// What parsing a decimal text at a binary precision yields, if anything.
pub uninterp spec fn parse_round(s: Seq<char>, p: nat) -> Option<RealVal>;

/// The decimal rendering of a value.
pub uninterp spec fn decimal_of(x: RealModel) -> Seq<char>;

/// Whether a value is finite.
pub open spec fn rfin(x: RealModel) -> bool {
    x.val is Finite
}

/// Whether both parts of a complex value are finite.
pub open spec fn cfin(z: ComplexModel) -> bool {
    rfin(z.re) && rfin(z.im)
}

pub open spec fn pmax(a: nat, b: nat) -> nat {
    if a <= b {
        b
    } else {
        a
    }
}

/// Reassembles the exact value `sign * limbs * 2^exp` at the carried
/// precision, without rounding.  Relies on `dashu_float::Repr::new` (which
/// only normalizes the representation) and `FBig::from_repr` (which attaches
/// the precision without rounding).
#[verifier::external_body]
fn to_fbig(x: &BigReal) -> FBox {
    let repr = match &x.repr {
        RealRepr::Finite { neg, limbs, exp } => {
            let mag = dashu_int::UBig::from_words(limbs);
            if mag.is_zero() && *neg {
                dashu_float::Repr::neg_zero()
            } else {
                let sign = if *neg { dashu_int::Sign::Negative } else { dashu_int::Sign::Positive };
                dashu_float::Repr::new(dashu_int::IBig::from_parts(sign, mag), *exp as isize)
            }
        },
        RealRepr::Infinite { neg } => if *neg { dashu_float::Repr::neg_infinity() } else { dashu_float::Repr::infinity() },
    };
    FBox(dashu_float::FBig::from_repr(repr, dashu_float::Context::new(x.prec as usize)))
}

/// Exposes the exact value of an arbitrary-precision number as plain data.
/// Relies on `FBig::into_repr` and `Repr::into_parts`; a zero significand
/// with exponent 0 or -1 is a positive or negative zero, with the extreme
/// exponents a positive or negative infinity.
#[verifier::external_body]
fn from_fbig(f: FBox) -> BigReal {
    let f = f.0;
    let prec = f.precision() as u32;
    let (sig, exp) = f.into_repr().into_parts();
    let repr = if sig.is_zero() {
        match exp {
            0 => RealRepr::Finite { neg: false, limbs: Vec::new(), exp: 0 },
            -1 => RealRepr::Finite { neg: true, limbs: Vec::new(), exp: 0 },
            isize::MAX => RealRepr::Infinite { neg: false },
            _ => RealRepr::Infinite { neg: true },
        }
    } else {
        let (sign, mag) = sig.into_parts();
        RealRepr::Finite { neg: sign == dashu_int::Sign::Negative, limbs: mag.as_words().to_vec(), exp: exp as i64 }
    };
    BigReal { prec, repr }
}

/// Relies on `dashu_float::FBig::sqr`: the square of the value, correctly
/// rounded (half to even) at the operand's own precision.  The outside call
/// does not accept an infinite operand, so the contract asks for a finite one;
/// the result may still saturate to an infinity on exponent overflow.
#[verifier::external_body]
pub(crate) fn real_sqr(x: &BigReal) -> (r: BigReal)
    requires
        wf_real(x@),
        rfin(x@),
    ensures
        r@ == fsq_round(x@),
        r@.prec == x@.prec,
        wf_real(r@),
{
    from_fbig(FBox(to_fbig(x).0.sqr()))
}

/// Relies on `Mul for dashu_float::FBig`: the product, correctly rounded
/// (half to even) at the larger of the operands' precisions.  The outside
/// call does not accept infinite operands; the result may still saturate.
#[verifier::external_body]
pub(crate) fn real_mul(x: &BigReal, y: &BigReal) -> (r: BigReal)
    requires
        wf_real(x@),
        wf_real(y@),
        rfin(x@),
        rfin(y@),
    ensures
        r@ == fmul_round(x@, y@),
        r@.prec == pmax(x@.prec, y@.prec),
        wf_real(r@),
{
    from_fbig(FBox(to_fbig(x).0 * to_fbig(y).0))
}

/// Relies on `Add for dashu_float::FBig`: the sum, correctly rounded (half
/// to even) at the larger of the operands' precisions.  The outside call does
/// not accept infinite operands; the result may still saturate.
#[verifier::external_body]
pub(crate) fn real_add(x: &BigReal, y: &BigReal) -> (r: BigReal)
    requires
        wf_real(x@),
        wf_real(y@),
        rfin(x@),
        rfin(y@),
    ensures
        r@ == fadd_round(x@, y@),
        r@.prec == pmax(x@.prec, y@.prec),
        wf_real(r@),
{
    from_fbig(FBox(to_fbig(x).0 + to_fbig(y).0))
}

/// Relies on `Sub for dashu_float::FBig`: the difference, correctly rounded
/// (half to even) at the larger of the operands' precisions.  The outside
/// call does not accept infinite operands; the result may still saturate.
#[verifier::external_body]
pub(crate) fn real_sub(x: &BigReal, y: &BigReal) -> (r: BigReal)
    requires
        wf_real(x@),
        wf_real(y@),
        rfin(x@),
        rfin(y@),
    ensures
        r@ == fsub_round(x@, y@),
        r@.prec == pmax(x@.prec, y@.prec),
        wf_real(r@),
{
    from_fbig(FBox(to_fbig(x).0 - to_fbig(y).0))
}

/// Relies on `PartialOrd for dashu_float::FBig`: comparison is by exact
/// value, with infinities at the two ends; precision plays no part in it.
#[verifier::external_body]
pub(crate) fn real_gt(x: &BigReal, y: &BigReal) -> (r: bool)
    requires
        wf_real(x@),
        wf_real(y@),
    ensures
        r == real_gt_val(x@.val, y@.val),
{
    to_fbig(x).0 > to_fbig(y).0
}

/// Relies on `dashu_float::FBig::with_precision`: raising the precision never
/// rounds, so the value and its representation are kept as they are.
#[verifier::external_body]
pub(crate) fn real_with_prec(x: &BigReal, p: u32) -> (r: BigReal)
    requires
        wf_real(x@),
        x@.prec <= p as nat,
    ensures
        r@ == at_prec(x@, p as nat),
        wf_real(r@),
{
    from_fbig(FBox(to_fbig(x).0.with_precision(p as usize).value()))
}

/// Relies on `dashu_float::FBig::to_f32`: the single-precision cast of the
/// value (round half to even), returned as its bit pattern.
#[verifier::external_body]
pub fn real_to_f32_bits(x: &BigReal) -> (r: u32)
    requires
        wf_real(x@),
    ensures
        r == f32_bits_of(x@),
{
    to_fbig(x).0.to_f32().value().to_bits()
}

/// Builds the value `v` at precision `p`.  Relies on
/// `dashu_float::FBig::from_parts` and `with_precision`: the representation is
/// normalized to an odd significand, and the value is kept exactly whenever
/// that significand fits in `p` bits.
#[verifier::external_body]
pub fn real_from_u32(v: u32, p: u32) -> (r: BigReal)
    requires
        1 <= p,
    ensures
        r@.prec == p as nat,
        wf_real(r@),
        bit_len(odd_of(v as nat)) <= p as nat ==> r@.val == (RealVal::Finite {
            neg: false,
            mag: odd_of(v as nat),
            exp: twos_of(v as nat) as int,
        }),
{
    let f = dashu_float::FBig::<dashu_float::round::mode::HalfEven, 2>::from_parts(
        dashu_int::IBig::from(v),
        0,
    );
    from_fbig(FBox(f.with_precision(p as usize).value()))
}

/// Parses a decimal text and rounds it (half to even) to `p` binary digits.
/// Relies on `dashu_float::DBig`'s `FromStr` (exact on its decimal digits)
/// and `with_base_and_precision` for the one rounding step.
#[verifier::external_body]
pub fn real_parse(s: &str, p: u32) -> (r: Option<BigReal>)
    requires
        1 <= p,
    ensures
        match r {
            Some(b) => parse_round(s@, p as nat) == Some(b@.val) && b@.prec == p as nat
                && wf_real(b@),
            None => parse_round(s@, p as nat) is None,
        },
{
    match s.parse::<dashu_float::DBig>() {
        Ok(d) => {
            let b = d.with_rounding::<dashu_float::round::mode::HalfEven>();
            Some(from_fbig(FBox(b.with_base_and_precision::<2>(p as usize).value())))
        },
        Err(_) => None,
    }
}

/// Renders the value as decimal text.  Relies on `dashu_float::FBig::to_decimal`
/// and the `Display` of the decimal form; the text depends on the value and
/// its precision alone.
#[verifier::external_body]
pub fn real_to_decimal(x: &BigReal) -> (r: String)
    requires
        wf_real(x@),
    ensures
        r@ == decimal_of(x@),
{
    format!("{}", to_fbig(x).0.to_decimal().value())
}

/// The model of the complex square `(re^2 - im^2, 2 re im)`, the double
/// computed as an exact sum.
pub open spec fn csq_model(z: ComplexModel) -> ComplexModel {
    ComplexModel {
        re: fsub_round(fsq_round(z.re), fsq_round(z.im)),
        im: fadd_round(fmul_round(z.re, z.im), fmul_round(z.re, z.im)),
    }
}

/// Whether the complex square can be carried out: finite operands, and no
/// intermediate square or product saturates out of the finite range.
pub open spec fn csq_ok(z: ComplexModel) -> bool {
    &&& cfin(z)
    &&& rfin(fsq_round(z.re))
    &&& rfin(fsq_round(z.im))
    &&& rfin(fmul_round(z.re, z.im))
}

/// The complex square where it can be carried out.
pub open spec fn csq_checked(z: ComplexModel) -> Option<ComplexModel> {
    if csq_ok(z) {
        Some(csq_model(z))
    } else {
        None
    }
}

/// The model of the componentwise complex sum.
pub open spec fn cadd_model(x: ComplexModel, y: ComplexModel) -> ComplexModel {
    ComplexModel { re: fadd_round(x.re, y.re), im: fadd_round(x.im, y.im) }
}

/// The componentwise complex sum where both operands are finite.
pub open spec fn cadd_checked(x: ComplexModel, y: ComplexModel) -> Option<ComplexModel> {
    if cfin(x) && cfin(y) {
        Some(cadd_model(x, y))
    } else {
        None
    }
}

/// The model of the complex product `(ac - bd, ad + bc)`.
pub open spec fn cmul_model(x: ComplexModel, y: ComplexModel) -> ComplexModel {
    ComplexModel {
        re: fsub_round(fmul_round(x.re, y.re), fmul_round(x.im, y.im)),
        im: fadd_round(fmul_round(x.re, y.im), fmul_round(x.im, y.re)),
    }
}

/// Whether the complex product can be carried out: finite operands, and no
/// intermediate product saturates out of the finite range.
pub open spec fn cmul_ok(x: ComplexModel, y: ComplexModel) -> bool {
    &&& cfin(x)
    &&& cfin(y)
    &&& rfin(fmul_round(x.re, y.re))
    &&& rfin(fmul_round(x.im, y.im))
    &&& rfin(fmul_round(x.re, y.im))
    &&& rfin(fmul_round(x.im, y.re))
}

/// The complex product where it can be carried out.
pub open spec fn cmul_checked(x: ComplexModel, y: ComplexModel) -> Option<ComplexModel> {
    if cmul_ok(x, y) {
        Some(cmul_model(x, y))
    } else {
        None
    }
}

/// Whether both parts of a complex model carry precision `p`.
pub open spec fn all_prec(z: ComplexModel, p: nat) -> bool {
    z.re.prec == p && z.im.prec == p
}

/// Whether a value is finite (infinities arise only from saturation or from
/// deliberately constructed inputs).
pub fn real_is_finite(x: &BigReal) -> (r: bool)
    ensures
        r == rfin(x@),
{
    match &x.repr {
        RealRepr::Finite { .. } => true,
        RealRepr::Infinite { .. } => false,
    }
}

/// Whether both parts of a complex value are finite.
pub fn complex_is_finite(z: &BigComplex) -> (r: bool)
    ensures
        r == cfin(z@),
{
    real_is_finite(&z.re) && real_is_finite(&z.im)
}

/// A positive infinity at precision `p`: what the escape test compares once
/// a squared magnitude has left the finite range.
pub fn real_infinite(p: u32) -> (r: BigReal)
    requires
        1 <= p,
    ensures
        r@ == (RealModel { prec: p as nat, val: RealVal::Infinite { neg: false } }),
        wf_real(r@),
{
    BigReal { prec: p, repr: RealRepr::Infinite { neg: false } }
}

/// The complex square `z^2 = (re^2 - im^2, 2 re im)`, where it can be carried
/// out; infinite operands or saturated intermediates yield nothing.
pub fn complex_sqr(z: &BigComplex) -> (r: Option<BigComplex>)
    requires
        wf_complex(z@),
    ensures
        match r {
            Some(v) => csq_checked(z@) == Some(v@) && wf_complex(v@) && (forall|p: nat|
                all_prec(z@, p) ==> all_prec(v@, p)),
            None => csq_checked(z@) is None,
        },
{
    if !complex_is_finite(z) {
        return None;
    }
    let re2 = real_sqr(&z.re);
    let im2 = real_sqr(&z.im);
    let cross = real_mul(&z.re, &z.im);
    if real_is_finite(&re2) && real_is_finite(&im2) && real_is_finite(&cross) {
        Some(BigComplex { re: real_sub(&re2, &im2), im: real_add(&cross, &cross) })
    } else {
        None
    }
}

/// The componentwise complex sum of two finite values.
pub fn complex_add(x: &BigComplex, y: &BigComplex) -> (r: BigComplex)
    requires
        wf_complex(x@),
        wf_complex(y@),
        cfin(x@),
        cfin(y@),
    ensures
        r@ == cadd_model(x@, y@),
        wf_complex(r@),
        forall|p: nat| all_prec(x@, p) && all_prec(y@, p) ==> all_prec(r@, p),
{
    BigComplex { re: real_add(&x.re, &y.re), im: real_add(&x.im, &y.im) }
}

/// The componentwise complex sum, where both operands are finite.
pub fn complex_add_checked(x: &BigComplex, y: &BigComplex) -> (r: Option<BigComplex>)
    requires
        wf_complex(x@),
        wf_complex(y@),
    ensures
        match r {
            Some(v) => cadd_checked(x@, y@) == Some(v@) && wf_complex(v@) && (forall|p: nat|
                all_prec(x@, p) && all_prec(y@, p) ==> all_prec(v@, p)),
            None => cadd_checked(x@, y@) is None,
        },
{
    if complex_is_finite(x) && complex_is_finite(y) {
        Some(complex_add(x, y))
    } else {
        None
    }
}

/// The complex product `(ac - bd, ad + bc)`, where it can be carried out;
/// infinite operands or saturated intermediates yield nothing.
pub fn complex_mul(x: &BigComplex, y: &BigComplex) -> (r: Option<BigComplex>)
    requires
        wf_complex(x@),
        wf_complex(y@),
    ensures
        match r {
            Some(v) => cmul_checked(x@, y@) == Some(v@) && wf_complex(v@) && (forall|p: nat|
                all_prec(x@, p) && all_prec(y@, p) ==> all_prec(v@, p)),
            None => cmul_checked(x@, y@) is None,
        },
{
    if !(complex_is_finite(x) && complex_is_finite(y)) {
        return None;
    }
    let ac = real_mul(&x.re, &y.re);
    let bd = real_mul(&x.im, &y.im);
    let ad = real_mul(&x.re, &y.im);
    let bc = real_mul(&x.im, &y.re);
    if real_is_finite(&ac) && real_is_finite(&bd) && real_is_finite(&ad) && real_is_finite(&bc) {
        Some(BigComplex { re: real_sub(&ac, &bd), im: real_add(&ad, &bc) })
    } else {
        None
    }
}

/// A complex value cast down to rendering (single) precision, held as the
/// two bit patterns.
#[derive(Clone, Copy, PartialEq, Eq, Structural, Debug)]
pub struct ReducedComplex {
    pub re_bits: u32,
    pub im_bits: u32,
}

/// The bit patterns of the single-precision cast of both parts of a value.
pub open spec fn reduce_model(z: ComplexModel) -> ReducedComplex {
    ReducedComplex { re_bits: f32_bits_of(z.re), im_bits: f32_bits_of(z.im) }
}

/// Casts both parts of a complex value down to rendering precision.
pub fn complex_reduce(z: &BigComplex) -> (r: ReducedComplex)
    requires
        wf_complex(z@),
    ensures
        r == reduce_model(z@),
{
    ReducedComplex { re_bits: real_to_f32_bits(&z.re), im_bits: real_to_f32_bits(&z.im) }
}

/// The working precision of a computation: the maximum precision among the
/// real and imaginary parts of both complex inputs and the radius.
pub open spec fn wp5(z: ComplexModel, c: ComplexModel, rad: RealModel) -> nat {
    pmax(pmax(pmax(z.re.prec, z.im.prec), pmax(c.re.prec, c.im.prec)), rad.prec)
}

/// A complex model with both parts at precision `p`, values unchanged.
pub open spec fn raise_c(z: ComplexModel, p: nat) -> ComplexModel {
    ComplexModel { re: at_prec(z.re, p), im: at_prec(z.im, p) }
}

/// Selects the working precision for one computation: the maximum precision
/// among the five scalar components supplied, recomputed on every call.
pub fn working_precision(z: &BigComplex, c: &BigComplex, radius: &BigReal) -> (p: u32)
    ensures
        p as nat == wp5(z@, c@, radius@),
        z@.re.prec <= p as nat,
        z@.im.prec <= p as nat,
        c@.re.prec <= p as nat,
        c@.im.prec <= p as nat,
        radius@.prec <= p as nat,
{
    let mut p = z.re.prec;
    if z.im.prec > p {
        p = z.im.prec;
    }
    if c.re.prec > p {
        p = c.re.prec;
    }
    if c.im.prec > p {
        p = c.im.prec;
    }
    if radius.prec > p {
        p = radius.prec;
    }
    p
}

/// Both parts of a complex value raised to precision `p`; the values are
/// kept exactly.
pub fn complex_with_prec(z: &BigComplex, p: u32) -> (r: BigComplex)
    requires
        wf_complex(z@),
        z@.re.prec <= p as nat,
        z@.im.prec <= p as nat,
    ensures
        r@ == (ComplexModel { re: at_prec(z@.re, p as nat), im: at_prec(z@.im, p as nat) }),
        wf_complex(r@),
{
    BigComplex { re: real_with_prec(&z.re, p), im: real_with_prec(&z.im, p) }
}

} // verus!
