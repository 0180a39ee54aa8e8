//! Lengths of time and points in time.
//!
//! A [`TimeSpan`] is a whole number of nanoseconds, kept as seconds and the
//! nanoseconds beyond them. A [`Moment`] is a point in time, kept as its
//! distance from an origin that the caller fixes.

use std::cmp::Ordering;
use vstd::prelude::*;
use vstd::std_specs::cmp::{PartialEqSpecImpl, PartialOrdSpecImpl};
use crate::error::{ApproEqError, ApproEqResult};
use vstd::std_specs::cmp::PartialOrdIs;
use crate::traits::{
    AbsApproEq, AbsApproEqWithTol, AbsError, AbsTolerance, RelApproEqWithTol, RelError, RelTolerance,
};
use crate::unsigned::abs_diff;

verus! {

/// The number of nanoseconds in a second.
pub const NANOS_PER_SEC: u32 = 1_000_000_000;

/// A length of time, to the nanosecond.
#[derive(Clone, Copy, Debug)]
pub struct TimeSpan {
    pub secs: u64,
    pub nanos: u32,
}

/// A point in time, as its distance from an origin.
#[derive(Clone, Copy, Debug)]
pub struct Moment {
    pub since_origin: TimeSpan,
}

/// The span of `n` nanoseconds.
pub open spec fn span_of(n: nat) -> TimeSpan {
    TimeSpan { secs: (n / (NANOS_PER_SEC as nat)) as u64, nanos: (n % (NANOS_PER_SEC as nat)) as u32 }
}

/// The longest span that a [`TimeSpan`] can hold, in nanoseconds.
pub open spec fn max_total_nanos() -> nat {
    ((u64::MAX as nat) * (NANOS_PER_SEC as nat) + (NANOS_PER_SEC as nat) - 1) as nat
}

/// `span_of` and `total_nanos` are inverse to each other on spans that a
/// [`TimeSpan`] can hold.
pub proof fn lemma_span_of_total(n: nat)
    requires
        n <= max_total_nanos(),
    ensures
        span_of(n).wf(),
        span_of(n).total_nanos() == n,
{
    let k = NANOS_PER_SEC as int;
    vstd::arithmetic::div_mod::lemma_fundamental_div_mod(n as int, k);
    vstd::arithmetic::div_mod::lemma_mod_bound(n as int, k);
    vstd::arithmetic::div_mod::lemma_div_pos_is_pos(n as int, k);
    if (n as int) / k > u64::MAX {
        vstd::arithmetic::mul::lemma_mul_inequality(u64::MAX + 1, (n as int) / k, k);
        vstd::arithmetic::mul::lemma_mul_is_commutative(k, (n as int) / k);
    }
    vstd::arithmetic::mul::lemma_mul_is_commutative(k, (n as int) / k);
}

/// A well-formed span is the span of its total.
pub proof fn lemma_total_span_of(t: TimeSpan)
    requires
        t.wf(),
    ensures
        t.total_nanos() <= max_total_nanos(),
        span_of(t.total_nanos()) == t,
{
    let k = NANOS_PER_SEC as int;
    let s = t.secs as int;
    let n = t.nanos as int;
    vstd::arithmetic::mul::lemma_mul_inequality(s, u64::MAX as int, k);
    vstd::arithmetic::div_mod::lemma_fundamental_div_mod_converse(s * k + n, k, s, n);
}

impl TimeSpan {
    /// The nanoseconds beyond the whole seconds are less than a second.
    pub open spec fn wf(self) -> bool {
        self.nanos < NANOS_PER_SEC
    }

    /// The whole length in nanoseconds.
    pub open spec fn total_nanos(self) -> nat {
        (self.secs as nat) * (NANOS_PER_SEC as nat) + (self.nanos as nat)
    }

    /// A span of `secs` seconds and `nanos` nanoseconds. A billion
    /// nanoseconds or more carry over into the seconds; `None` when the
    /// seconds then no longer fit.
    pub fn new(secs: u64, nanos: u32) -> (r: Option<TimeSpan>)
        ensures
            (secs as nat) * (NANOS_PER_SEC as nat) + (nanos as nat) <= max_total_nanos() ==> r
                == Some(span_of((secs as nat) * (NANOS_PER_SEC as nat) + (nanos as nat))),
            (secs as nat) * (NANOS_PER_SEC as nat) + (nanos as nat) > max_total_nanos() ==> r
                is None,
            r matches Some(t) ==> t.wf(),
    {
        let carry: u64 = (nanos / NANOS_PER_SEC) as u64;
        let rest: u32 = nanos % NANOS_PER_SEC;
        proof {
            let k = NANOS_PER_SEC as int;
            let total = (secs as int) * k + (nanos as int);
            vstd::arithmetic::div_mod::lemma_fundamental_div_mod(nanos as int, k);
            assert(total == (secs + carry) * k + rest) by (nonlinear_arith)
                requires
                    total == (secs as int) * k + (nanos as int),
                    nanos as int == k * (carry as int) + (rest as int),
            ;
            if secs + carry <= u64::MAX {
                vstd::arithmetic::mul::lemma_mul_inequality(secs + carry, u64::MAX as int, k);
                vstd::arithmetic::div_mod::lemma_fundamental_div_mod_converse(
                    total,
                    k,
                    secs + carry,
                    rest as int,
                );
            } else {
                vstd::arithmetic::mul::lemma_mul_inequality(u64::MAX + 1, secs + carry, k);
            }
        }
        match secs.checked_add(carry) {
            Some(whole) => Some(TimeSpan { secs: whole, nanos: rest }),
            None => None,
        }
    }

    /// The whole seconds.
    pub fn as_secs(&self) -> (r: u64)
        ensures
            r == self.secs,
    {
        self.secs
    }

    /// The nanoseconds beyond the whole seconds.
    pub fn subsec_nanos(&self) -> (r: u32)
        ensures
            r == self.nanos,
    {
        self.nanos
    }

    /// The whole length in nanoseconds.
    pub fn as_nanos(&self) -> (r: u128)
        requires
            self.wf(),
        ensures
            r == self.total_nanos(),
            r <= max_total_nanos(),
    {
        proof {
            lemma_total_span_of(*self);
        }
        (self.secs as u128) * (NANOS_PER_SEC as u128) + (self.nanos as u128)
    }

    /// The span of `n` nanoseconds.
    pub fn from_nanos(n: u128) -> (r: TimeSpan)
        requires
            n <= max_total_nanos(),
        ensures
            r == span_of(n as nat),
            r.wf(),
            r.total_nanos() == n,
    {
        proof {
            lemma_span_of_total(n as nat);
        }
        TimeSpan {
            secs: (n / (NANOS_PER_SEC as u128)) as u64,
            nanos: (n % (NANOS_PER_SEC as u128)) as u32,
        }
    }
}

/// Spans are equal when seconds and nanoseconds are.
impl PartialEq for TimeSpan {
    fn eq(&self, other: &TimeSpan) -> (r: bool) {
        self.secs == other.secs && self.nanos == other.nanos
    }
}

impl PartialEqSpecImpl for TimeSpan {
    open spec fn obeys_eq_spec() -> bool {
        true
    }

    open spec fn eq_spec(&self, other: &TimeSpan) -> bool {
        self.secs == other.secs && self.nanos == other.nanos
    }
}

/// Spans are ordered by seconds, then by nanoseconds: for well-formed
/// spans, by length.
impl PartialOrd for TimeSpan {
    fn partial_cmp(&self, other: &TimeSpan) -> (r: Option<Ordering>) {
        if self.secs < other.secs {
            Some(Ordering::Less)
        } else if self.secs > other.secs {
            Some(Ordering::Greater)
        } else if self.nanos < other.nanos {
            Some(Ordering::Less)
        } else if self.nanos > other.nanos {
            Some(Ordering::Greater)
        } else {
            Some(Ordering::Equal)
        }
    }
}

impl PartialOrdSpecImpl for TimeSpan {
    open spec fn obeys_partial_cmp_spec() -> bool {
        true
    }

    open spec fn partial_cmp_spec(&self, other: &TimeSpan) -> Option<Ordering> {
        if self.secs < other.secs {
            Some(Ordering::Less)
        } else if self.secs > other.secs {
            Some(Ordering::Greater)
        } else if self.nanos < other.nanos {
            Some(Ordering::Less)
        } else if self.nanos > other.nanos {
            Some(Ordering::Greater)
        } else {
            Some(Ordering::Equal)
        }
    }
}

/// The default tolerance for an absolute error between spans: one second.
impl AbsTolerance for TimeSpan {
    open spec fn abs_tolerance_spec() -> TimeSpan {
        TimeSpan { secs: 1, nanos: 0 }
    }

    fn abs_tolerance() -> (r: TimeSpan) {
        TimeSpan { secs: 1, nanos: 0 }
    }
}

/// The default tolerance for a relative error between spans: one
/// millisecond, a thousandth.
impl RelTolerance for TimeSpan {
    open spec fn rel_tolerance_spec() -> TimeSpan {
        TimeSpan { secs: 0, nanos: 1_000_000 }
    }

    fn rel_tolerance() -> (r: TimeSpan) {
        TimeSpan { secs: 0, nanos: 1_000_000 }
    }
}

/// The distance of two spans is the absolute difference of their lengths.
impl AbsError for TimeSpan {
    open spec fn abs_error_pre(&self, expected: &TimeSpan) -> bool {
        self.wf() && expected.wf()
    }

    open spec fn abs_error_spec(&self, expected: &TimeSpan) -> ApproEqResult<TimeSpan> {
        Ok(Some(span_of(abs_diff(self.total_nanos() as int, expected.total_nanos() as int) as nat)))
    }

    fn abs_error(&self, expected: &TimeSpan) -> (r: ApproEqResult<TimeSpan>) {
        let a = self.as_nanos();
        let b = expected.as_nanos();
        Ok(Some(TimeSpan::from_nanos(if a > b {
            a - b
        } else {
            b - a
        })))
    }
}

/// The relative error of two spans is their distance divided by the whole
/// seconds of the expected span. It fails as a division by zero when the
/// expected span has no whole second, or more of them than fit in 32 bits.
impl RelError for TimeSpan {
    open spec fn rel_error_pre(&self, expected: &TimeSpan) -> bool {
        self.wf() && expected.wf()
    }

    open spec fn rel_error_spec(&self, expected: &TimeSpan) -> ApproEqResult<TimeSpan> {
        if expected.secs == 0 || expected.secs > u32::MAX {
            Err(ApproEqError::DividedByZero)
        } else {
            Ok(
                Some(
                    span_of(
                        (abs_diff(self.total_nanos() as int, expected.total_nanos() as int) / (
                        expected.secs as int)) as nat,
                    ),
                ),
            )
        }
    }

    fn rel_error(&self, expected: &TimeSpan) -> (r: ApproEqResult<TimeSpan>) {
        if expected.secs == 0 || expected.secs > 0xffff_ffff {
            Err(ApproEqError::DividedByZero)
        } else {
            let a = self.as_nanos();
            let b = expected.as_nanos();
            let d = if a > b {
                a - b
            } else {
                b - a
            };
            let q = d / (expected.secs as u128);
            proof {
                vstd::arithmetic::div_mod::lemma_div_is_ordered_by_denominator(
                    d as int,
                    1,
                    expected.secs as int,
                );
                vstd::arithmetic::div_mod::lemma_div_basics(d as int);
            }
            Ok(Some(TimeSpan::from_nanos(q)))
        }
    }
}

/// Well-formed spans are ordered as their lengths are, and are equal
/// exactly when their lengths are.
pub proof fn lemma_order_by_total(a: TimeSpan, b: TimeSpan)
    requires
        a.wf(),
        b.wf(),
    ensures
        a.is_le(&b) <==> a.total_nanos() <= b.total_nanos(),
        a == b <==> a.total_nanos() == b.total_nanos(),
{
    let k = NANOS_PER_SEC as int;
    let sa = a.secs as int;
    let sb = b.secs as int;
    if sa < sb {
        vstd::arithmetic::mul::lemma_mul_inequality(sa + 1, sb, k);
        vstd::arithmetic::mul::lemma_mul_is_distributive_add_other_way(k, sa, 1);
    } else if sb < sa {
        vstd::arithmetic::mul::lemma_mul_inequality(sb + 1, sa, k);
        vstd::arithmetic::mul::lemma_mul_is_distributive_add_other_way(k, sb, 1);
    }
}

/// For well-formed spans: the distance of a span from itself is zero and
/// within the default tolerance; two spans are approximately equal under
/// a tolerance exactly when their lengths differ by at most that
/// tolerance, the bound included; the distance does not depend on which
/// of the two is the longer; and relatively, no span is approximately
/// equal to an expected span of less than a second or of more whole
/// seconds than fit in 32 bits, while against any other the difference
/// divided by the expected whole seconds decides.
pub proof fn law_time_span_distance(a: TimeSpan, b: TimeSpan, tol: TimeSpan)
    requires
        a.wf(),
        b.wf(),
        tol.wf(),
    ensures
        a.abs_error_spec(&a) == Ok::<Option<TimeSpan>, ApproEqError>(
            Some(TimeSpan { secs: 0, nanos: 0 }),
        ),
        a.abs_appro_eq_pre(&a) && a.abs_appro_eq_decided(&a) && a.abs_appro_eq_spec(&a),
        a.abs_with_tol_pre(&b) && a.abs_with_tol_decided(&b),
        a.abs_error_spec(&b) == b.abs_error_spec(&a),
        a.abs_with_tol_spec(&b, &tol) == (abs_diff(a.total_nanos() as int, b.total_nanos() as int)
            <= tol.total_nanos()),
        a.abs_appro_eq_spec(&b) == (abs_diff(a.total_nanos() as int, b.total_nanos() as int)
            <= NANOS_PER_SEC),
        a.rel_with_tol_pre(&b) && a.rel_with_tol_decided(&b),
        b.secs == 0 || b.secs > u32::MAX ==> !a.rel_with_tol_spec(&b, &tol),
        0 < b.secs <= u32::MAX ==> a.rel_with_tol_spec(&b, &tol) == (abs_diff(
            a.total_nanos() as int,
            b.total_nanos() as int,
        ) / (b.secs as int) <= tol.total_nanos()),
{
    lemma_total_span_of(a);
    lemma_total_span_of(b);
    let d = abs_diff(a.total_nanos() as int, b.total_nanos() as int) as nat;
    lemma_span_of_total(d);
    lemma_order_by_total(span_of(d), tol);
    let one = TimeSpan { secs: 1, nanos: 0 };
    lemma_order_by_total(span_of(d), one);
    lemma_span_of_total(0);
    lemma_order_by_total(span_of(0), one);
    assert(span_of(0) == TimeSpan { secs: 0, nanos: 0 });
    if 0 < b.secs <= u32::MAX {
        let q = (d as int) / (b.secs as int);
        vstd::arithmetic::div_mod::lemma_div_is_ordered_by_denominator(d as int, 1, b.secs as int);
        vstd::arithmetic::div_mod::lemma_div_basics(d as int);
        vstd::arithmetic::div_mod::lemma_div_pos_is_pos(d as int, b.secs as int);
        lemma_span_of_total(q as nat);
        lemma_order_by_total(span_of(q as nat), tol);
    }
}

impl Moment {
    /// The point in time that lies `since_origin` after the origin.
    pub fn new(since_origin: TimeSpan) -> (r: Moment)
        ensures
            r.since_origin == since_origin,
    {
        Moment { since_origin }
    }
}

/// Two points in time are as far apart as their distances from the origin
/// differ, whichever comes first. No relative error is defined for them.
impl AbsError<Moment, TimeSpan> for Moment {
    open spec fn abs_error_pre(&self, expected: &Moment) -> bool {
        self.since_origin.wf() && expected.since_origin.wf()
    }

    open spec fn abs_error_spec(&self, expected: &Moment) -> ApproEqResult<TimeSpan> {
        self.since_origin.abs_error_spec(&expected.since_origin)
    }

    fn abs_error(&self, expected: &Moment) -> (r: ApproEqResult<TimeSpan>) {
        self.since_origin.abs_error(&expected.since_origin)
    }
}

/// The distance between two points in time does not depend on which of
/// them comes first, and a point in time is at distance zero from itself.
pub proof fn law_moment_distance(a: Moment, b: Moment)
    requires
        a.since_origin.wf(),
        b.since_origin.wf(),
    ensures
        a.abs_error_spec(&b) == b.abs_error_spec(&a),
        a.abs_error_spec(&a) == Ok::<Option<TimeSpan>, ApproEqError>(
            Some(TimeSpan { secs: 0, nanos: 0 }),
        ),
        a.abs_appro_eq_pre(&a) && a.abs_appro_eq_decided(&a) && a.abs_appro_eq_spec(&a),
{
    law_time_span_distance(a.since_origin, b.since_origin, a.since_origin);
}

/// The absolute error between two readings of a clock, from what the clock
/// gave as the time elapsed between them: that span, or the clock's failure
/// kept as the cause.
pub fn elapsed_abs_error(elapsed: Result<TimeSpan, String>) -> (r: ApproEqResult<TimeSpan>)
    ensures
        r == match elapsed {
            Ok(span) => Ok::<Option<TimeSpan>, ApproEqError>(Some(span)),
            Err(cause) => Err(ApproEqError::ComponentError(cause)),
        },
{
    match elapsed {
        Ok(span) => Ok(Some(span)),
        Err(cause) => Err(ApproEqError::ComponentError(cause)),
    }
}

} // verus!
