//! Exact rational numbers: distances are computed without rounding, by the
//! `num_rational` crate, and a result that does not fit is reported as an
//! overflow.

use num_rational::Ratio;
use num_traits::{CheckedDiv, CheckedSub};
use std::cmp::Ordering;
use vstd::prelude::*;
use vstd::std_specs::cmp::{PartialEqSpecImpl, PartialOrdSpecImpl};
use crate::error::{ApproEqError, ApproEqResult};
use crate::traits::{AbsApproEq, AbsError, RelApproEqWithTol, RelError, Tolerance};

verus! {

/// The fraction `numer / denom`.
#[derive(Clone, Copy, Debug)]
pub struct Rational {
    pub numer: i64,
    pub denom: i64,
}

/// How `an / ad` stands to `bn / bd`, for positive denominators: as the
/// cross products stand to each other.
pub open spec fn cross_order(an: i64, ad: i64, bn: i64, bd: i64) -> Ordering {
    if an * bd < bn * ad {
        Ordering::Less
    } else if an * bd > bn * ad {
        Ordering::Greater
    } else {
        Ordering::Equal
    }
}

/// What `Ratio::checked_sub` gives for `an / ad - bn / bd`: numerator and
/// denominator of the difference, or `None` when an intermediate value
/// does not fit in `i64`.
pub uninterp spec fn ratio_checked_sub(an: int, ad: int, bn: int, bd: int) -> Option<(int, int)>;

/// What `Ratio::checked_div` gives for `(an / ad) / (bn / bd)`: numerator
/// and denominator of the quotient, or `None` when the divisor is zero or
/// an intermediate value does not fit in `i64`.
pub uninterp spec fn ratio_checked_div(an: int, ad: int, bn: int, bd: int) -> Option<(int, int)>;

/// No integer above one divides both `n` and `d`.
pub open spec fn lowest_terms(n: int, d: int) -> bool {
    forall|k: int| k > 1 ==> !(#[trigger] (n % k) == 0 && d % k == 0)
}

/// The value of an optional pair of machine integers.
pub open spec fn parts_view(p: Option<(i64, i64)>) -> Option<(int, int)> {
    match p {
        Some(q) => Some((q.0 as int, q.1 as int)),
        None => None,
    }
}

/// `Ratio::new`: the fraction in lowest terms with a positive denominator.
/// It panics on a zero denominator and can overflow on the least `i64`;
/// the precondition leaves both out.
#[verifier::external_body]
fn ratio_reduced(numer: i64, denom: i64) -> (r: (i64, i64))
    requires
        denom != 0,
        numer > i64::MIN,
        denom > i64::MIN,
    ensures
        r.1 > 0,
        r.0 > i64::MIN,
        r.0 * denom == numer * r.1,
        lowest_terms(r.0 as int, r.1 as int),
{
    let q = Ratio::new(numer, denom);
    (*q.numer(), *q.denom())
}

/// `Ord::cmp` of `Ratio`: the exact order of two fractions with positive
/// denominators.
#[verifier::external_body]
fn ratio_order(an: i64, ad: i64, bn: i64, bd: i64) -> (r: Ordering)
    requires
        ad > 0,
        bd > 0,
    ensures
        r == cross_order(an, ad, bn, bd),
{
    Ratio::new_raw(an, ad).cmp(&Ratio::new_raw(bn, bd))
}

/// `CheckedSub::checked_sub` of `Ratio`: when it answers, the answer is
/// the exact difference, with a positive denominator; a fraction minus
/// itself is `0 / 1`.
#[verifier::external_body]
fn ratio_sub(an: i64, ad: i64, bn: i64, bd: i64) -> (r: Option<(i64, i64)>)
    requires
        ad > 0,
        bd > 0,
    ensures
        parts_view(r) == ratio_checked_sub(an as int, ad as int, bn as int, bd as int),
        r matches Some(p) ==> p.1 > 0 && p.0 * (ad * bd) == (an * bd - bn * ad) * p.1,
        an == bn && ad == bd ==> r == Some((0i64, 1i64)),
{
    match Ratio::new_raw(an, ad).checked_sub(&Ratio::new_raw(bn, bd)) {
        Some(d) => Some((*d.numer(), *d.denom())),
        None => None,
    }
}

/// `CheckedDiv::checked_div` of `Ratio`: no answer for a zero divisor;
/// when it answers, the answer is the exact quotient, with a positive
/// denominator. The one pair on which it can overflow before it answers,
/// a zero dividend over the least `i64`, is left out.
#[verifier::external_body]
fn ratio_div(an: i64, ad: i64, bn: i64, bd: i64) -> (r: Option<(i64, i64)>)
    requires
        ad > 0,
        bd > 0,
        !(an == 0 && bn == i64::MIN),
    ensures
        parts_view(r) == ratio_checked_div(an as int, ad as int, bn as int, bd as int),
        bn == 0 ==> r is None,
        r matches Some(p) ==> p.1 > 0 && p.0 * (ad * bn) == (an * bd) * p.1,
{
    match Ratio::new_raw(an, ad).checked_div(&Ratio::new_raw(bn, bd)) {
        Some(q) => Some((*q.numer(), *q.denom())),
        None => None,
    }
}

/// The fraction that a pair of parts stands for.
pub open spec fn rational_of(p: (int, int)) -> Rational {
    Rational { numer: p.0 as i64, denom: p.1 as i64 }
}

/// The outcome of a distance computation that may not fit.
pub open spec fn fitted(p: Option<(int, int)>) -> ApproEqResult<Rational> {
    match p {
        Some(q) => Ok(Some(rational_of(q))),
        None => Err(ApproEqError::Overflow),
    }
}

/// The difference of the greater and the smaller of two fractions, as
/// `Ratio::checked_sub` gives it.
pub open spec fn rational_gap(a: Rational, b: Rational) -> Option<(int, int)> {
    if a.numer * b.denom > b.numer * a.denom {
        ratio_checked_sub(a.numer as int, a.denom as int, b.numer as int, b.denom as int)
    } else {
        ratio_checked_sub(b.numer as int, b.denom as int, a.numer as int, a.denom as int)
    }
}

impl Rational {
    /// The denominator is positive.
    pub open spec fn wf(self) -> bool {
        self.denom > 0
    }

    /// The fraction `numer / denom` in lowest terms. `None` for a zero
    /// denominator, and when either part is the least `i64`, whose negation
    /// does not exist.
    pub fn new(numer: i64, denom: i64) -> (r: Option<Rational>)
        ensures
            r is Some <==> denom != 0 && numer > i64::MIN && denom > i64::MIN,
            r matches Some(q) ==> q.wf() && q.numer > i64::MIN && q.numer * denom == numer
                * q.denom && lowest_terms(
                q.numer as int,
                q.denom as int,
            ),
    {
        if denom == 0 || numer == i64::MIN || denom == i64::MIN {
            None
        } else {
            let parts = ratio_reduced(numer, denom);
            Some(Rational { numer: parts.0, denom: parts.1 })
        }
    }

    /// The greater minus the smaller of `self` and `other`.
    fn gap(&self, other: &Rational) -> (r: Option<(i64, i64)>)
        requires
            self.wf(),
            other.wf(),
        ensures
            parts_view(r) == rational_gap(*self, *other),
            r matches Some(p) ==> p.0 >= 0 && p.1 > 0 && p.0 * (self.denom * other.denom)
                == abs_cross(*self, *other) * p.1,
            *self == *other ==> r == Some((0i64, 1i64)),
    {
        let r = match ratio_order(self.numer, self.denom, other.numer, other.denom) {
            Ordering::Greater => ratio_sub(self.numer, self.denom, other.numer, other.denom),
            _ => ratio_sub(other.numer, other.denom, self.numer, self.denom),
        };
        proof {
            if let Some(p) = r {
                lemma_gap_sign(*self, *other, p);
            }
        }
        r
    }
}

/// An exact difference of the greater and the smaller fraction has a
/// numerator that is not negative.
proof fn lemma_gap_sign(a: Rational, b: Rational, p: (i64, i64))
    requires
        a.wf(),
        b.wf(),
        p.1 > 0,
        a.numer * b.denom > b.numer * a.denom ==> p.0 * (a.denom * b.denom) == (a.numer * b.denom
            - b.numer * a.denom) * p.1,
        a.numer * b.denom <= b.numer * a.denom ==> p.0 * (b.denom * a.denom) == (b.numer * a.denom
            - a.numer * b.denom) * p.1,
    ensures
        p.0 >= 0,
        p.0 * (a.denom * b.denom) == abs_cross(a, b) * p.1,
{
    let n = p.0 as int;
    let d = p.1 as int;
    let m = (a.denom as int) * (b.denom as int);
    let g = abs_cross(a, b);
    assert(m > 0) by (nonlinear_arith)
        requires
            m == (a.denom as int) * (b.denom as int),
            a.denom > 0,
            b.denom > 0,
    ;
    assert(n * m == g * d) by (nonlinear_arith)
        requires
            m == (a.denom as int) * (b.denom as int),
            g == abs_cross(a, b),
            a.numer * b.denom > b.numer * a.denom ==> n * ((a.denom as int) * (b.denom as int)) == (
            a.numer * b.denom - b.numer * a.denom) * d,
            a.numer * b.denom <= b.numer * a.denom ==> n * ((b.denom as int) * (a.denom as int))
                == (b.numer * a.denom - a.numer * b.denom) * d,
    ;
    assert(n >= 0) by (nonlinear_arith)
        requires
            n * m == g * d,
            m > 0,
            g >= 0,
            d > 0,
    ;
}

/// The quotient of an exact distance by the expected value is the
/// difference of the cross products over the product of the actual
/// denominator and the expected numerator.
proof fn lemma_quotient_exact(a: Rational, e: Rational, p: (i64, i64), q: (i64, i64))
    requires
        a.wf(),
        e.wf(),
        p.1 > 0,
        p.0 * (a.denom * e.denom) == abs_cross(a, e) * p.1,
        q.0 * (p.1 * e.numer) == (p.0 * e.denom) * q.1,
    ensures
        q.0 * (a.denom * e.numer) == abs_cross(a, e) * q.1,
{
    let x = abs_cross(a, e);
    let (pn, pd) = (p.0 as int, p.1 as int);
    let (qn, qd) = (q.0 as int, q.1 as int);
    let (ad, en, ed) = (a.denom as int, e.numer as int, e.denom as int);
    let lhs = qn * (ad * en);
    let rhs = x * qd;
    let t1 = qn * (pd * en);
    let t2 = (pn * ed) * qd;
    let u1 = pn * (ad * ed);
    let u2 = x * pd;
    assert(lhs * (pd * ed) == t1 * (ad * ed)) by (nonlinear_arith)
        requires
            lhs == qn * (ad * en),
            t1 == qn * (pd * en),
    ;
    assert(t2 * (ad * ed) == u1 * (ed * qd)) by (nonlinear_arith)
        requires
            t2 == (pn * ed) * qd,
            u1 == pn * (ad * ed),
    ;
    assert(u2 * (ed * qd) == rhs * (pd * ed)) by (nonlinear_arith)
        requires
            u2 == x * pd,
            rhs == x * qd,
    ;
    assert(pd * ed > 0) by (nonlinear_arith)
        requires
            pd > 0,
            ed > 0,
    ;
    assert(lhs == rhs) by (nonlinear_arith)
        requires
            lhs * (pd * ed) == rhs * (pd * ed),
            pd * ed > 0,
    ;
}

/// The magnitude of the difference of the cross products.
pub open spec fn abs_cross(a: Rational, b: Rational) -> int {
    if a.numer * b.denom > b.numer * a.denom {
        a.numer * b.denom - b.numer * a.denom
    } else {
        b.numer * a.denom - a.numer * b.denom
    }
}

/// Two fractions are equal when they have the same value, whatever terms
/// they are written in. A fraction whose denominator is not positive has
/// no value and equals nothing.
impl PartialEq for Rational {
    fn eq(&self, other: &Rational) -> (r: bool) {
        if self.denom <= 0 || other.denom <= 0 {
            false
        } else {
            match ratio_order(self.numer, self.denom, other.numer, other.denom) {
                Ordering::Equal => true,
                _ => false,
            }
        }
    }
}

impl PartialEqSpecImpl for Rational {
    open spec fn obeys_eq_spec() -> bool {
        true
    }

    open spec fn eq_spec(&self, other: &Rational) -> bool {
        self.denom > 0 && other.denom > 0 && self.numer * other.denom == other.numer * self.denom
    }
}

/// Fractions are ordered by value. A fraction whose denominator is not
/// positive has no value and is not comparable.
impl PartialOrd for Rational {
    fn partial_cmp(&self, other: &Rational) -> (r: Option<Ordering>) {
        if self.denom <= 0 || other.denom <= 0 {
            None
        } else {
            Some(ratio_order(self.numer, self.denom, other.numer, other.denom))
        }
    }
}

impl PartialOrdSpecImpl for Rational {
    open spec fn obeys_partial_cmp_spec() -> bool {
        true
    }

    open spec fn partial_cmp_spec(&self, other: &Rational) -> Option<Ordering> {
        if self.denom <= 0 || other.denom <= 0 {
            None
        } else {
            Some(cross_order(self.numer, self.denom, other.numer, other.denom))
        }
    }
}

/// The default tolerance of a fraction is zero: approximate equality is
/// equality.
impl Tolerance for Rational {
    open spec fn tolerance_spec() -> Rational {
        Rational { numer: 0, denom: 1 }
    }

    fn tolerance() -> (r: Rational) {
        Rational { numer: 0, denom: 1 }
    }
}

impl AbsError for Rational {
    open spec fn abs_error_pre(&self, expected: &Rational) -> bool {
        self.wf() && expected.wf()
    }

    open spec fn abs_error_spec(&self, expected: &Rational) -> ApproEqResult<Rational> {
        if *self == *expected {
            Ok(Some(Rational { numer: 0, denom: 1 }))
        } else {
            fitted(rational_gap(*self, *expected))
        }
    }

    /// Beyond what every implementation promises: a distance that comes
    /// back is exact and not negative.
    fn abs_error(&self, expected: &Rational) -> (r: ApproEqResult<Rational>)
        ensures
            r matches Ok(Some(d)) ==> d.wf() && d.numer >= 0 && d.numer * (self.denom
                * expected.denom) == abs_cross(*self, *expected) * d.denom,
    {
        match self.gap(expected) {
            Some(p) => Ok(Some(Rational { numer: p.0, denom: p.1 })),
            None => Err(ApproEqError::Overflow),
        }
    }
}

/// A fraction is at distance `0 / 1` from itself, which is within the
/// default tolerance.
pub proof fn law_rational_reflexive(x: Rational)
    requires
        x.wf(),
    ensures
        x.abs_error_pre(&x),
        x.abs_error_spec(&x) == Ok::<Option<Rational>, ApproEqError>(
            Some(Rational { numer: 0, denom: 1 }),
        ),
        x.abs_appro_eq_pre(&x) && x.abs_appro_eq_decided(&x) && x.abs_appro_eq_spec(&x),
{
}

/// An expected value of zero has no relative error against it, under any
/// tolerance.
pub proof fn law_rational_divided_by_zero(x: Rational, zero: Rational, tol: Rational)
    requires
        x.wf(),
        zero.wf(),
        zero.numer == 0,
    ensures
        x.rel_with_tol_pre(&zero),
        x.rel_with_tol_decided(&zero),
        x.rel_error_spec(&zero) == Err::<Option<Rational>, ApproEqError>(
            ApproEqError::DividedByZero,
        ),
        !x.rel_with_tol_spec(&zero, &tol),
{
}

impl RelError for Rational {
    open spec fn rel_error_pre(&self, expected: &Rational) -> bool {
        self.wf() && expected.wf() && expected.numer > i64::MIN
    }

    open spec fn rel_error_spec(&self, expected: &Rational) -> ApproEqResult<Rational> {
        if expected.numer == 0 {
            Err(ApproEqError::DividedByZero)
        } else {
            match rational_gap(*self, *expected) {
                Some(p) => fitted(
                    ratio_checked_div(p.0, p.1, expected.numer as int, expected.denom as int),
                ),
                None => Err(ApproEqError::Overflow),
            }
        }
    }

    /// Beyond what every implementation promises: a quotient that comes
    /// back is exact, the distance over the expected value.
    fn rel_error(&self, expected: &Rational) -> (r: ApproEqResult<Rational>)
        ensures
            r matches Ok(Some(q)) ==> q.wf() && q.numer * (self.denom * expected.numer)
                == abs_cross(*self, *expected) * q.denom,
    {
        if expected.numer == 0 {
            Err(ApproEqError::DividedByZero)
        } else {
            match self.gap(expected) {
                Some(p) => match ratio_div(p.0, p.1, expected.numer, expected.denom) {
                    Some(q) => {
                        proof {
                            lemma_quotient_exact(*self, *expected, p, q);
                        }
                        Ok(Some(Rational { numer: q.0, denom: q.1 }))
                    },
                    None => Err(ApproEqError::Overflow),
                },
                None => Err(ApproEqError::Overflow),
            }
        }
    }
}

} // verus!
