//! The capability traits and the predicates derived from them.
//!
//! A type opts in by saying how far apart two of its values are
//! ([`AbsError`], [`RelError`]) and, for the distance type, what tolerance
//! applies when the caller names none ([`Tolerance`], or [`AbsTolerance`]
//! and [`RelTolerance`] separately). The four predicate traits are
//! implemented once, for every such type.

use vstd::prelude::*;
use vstd::std_specs::cmp::PartialOrdIs;
use vstd::std_specs::cmp::PartialOrdSpec;
use crate::error::ApproEqError;

verus! {

/// Whether a computed error passes under the tolerance `tol`: a distance
/// passes when it is at most `tol`, the absence of any distance always
/// passes, a failure never does.
pub open spec fn within_tol<D: PartialOrd>(res: Result<Option<D>, ApproEqError>, tol: D) -> bool {
    match res {
        Ok(Some(d)) => d.is_le(&tol),
        Ok(None) => true,
        Err(_) => false,
    }
}

/// Whether the verdict on `res` is fixed whatever the tolerance is compared
/// with: always for a failure or an absent distance, and for a distance when
/// the order on `D` is the one its specification gives.
pub open spec fn verdict_decided<D: PartialOrd>(res: Result<Option<D>, ApproEqError>) -> bool {
    D::obeys_partial_cmp_spec() || !(res matches Ok(Some(_)))
}

/// Relative error: the absolute error scaled by the expected value.
pub trait RelError<Rhs: ?Sized = Self, Diff = Self> {
    /// The inputs on which the error can be computed within machine
    /// limits; all of them, unless the implementation says otherwise.
    open spec fn rel_error_pre(&self, expected: &Rhs) -> bool {
        true
    }

    /// The relative error of `self` against `expected`. An implementation
    /// states it here; one that does not leaves it unknown.
    open spec fn rel_error_spec(&self, expected: &Rhs) -> Result<Option<Diff>, ApproEqError> {
        arbitrary()
    }

    /// Computes the relative error of `self` (the actual value) against
    /// `expected`.
    fn rel_error(&self, expected: &Rhs) -> (r: Result<Option<Diff>, ApproEqError>)
        requires
            self.rel_error_pre(expected),
        ensures
            r == self.rel_error_spec(expected),
    ;
}

/// Absolute error: the magnitude of the difference.
pub trait AbsError<Rhs: ?Sized = Self, Diff = Self> {
    /// The inputs on which the error can be computed within machine
    /// limits; all of them, unless the implementation says otherwise.
    open spec fn abs_error_pre(&self, expected: &Rhs) -> bool {
        true
    }

    /// The absolute error between `self` and `expected`. An implementation
    /// states it here; one that does not leaves it unknown.
    open spec fn abs_error_spec(&self, expected: &Rhs) -> Result<Option<Diff>, ApproEqError> {
        arbitrary()
    }

    /// Computes the absolute error between `self` (the actual value) and
    /// `expected`.
    fn abs_error(&self, expected: &Rhs) -> (r: Result<Option<Diff>, ApproEqError>)
        requires
            self.abs_error_pre(expected),
        ensures
            r == self.abs_error_spec(expected),
    ;
}

/// The default tolerance for absolute errors of type `Diff`.
pub trait AbsTolerance<Diff = Self> {
    /// The tolerance that [`Self::abs_tolerance`] returns.
    open spec fn abs_tolerance_spec() -> Diff {
        arbitrary()
    }

    /// The largest absolute error that still counts as equal.
    fn abs_tolerance() -> (r: Diff)
        ensures
            r == Self::abs_tolerance_spec(),
    ;
}

/// The default tolerance for relative errors of type `Diff`.
pub trait RelTolerance<Diff = Self> {
    /// The tolerance that [`Self::rel_tolerance`] returns.
    open spec fn rel_tolerance_spec() -> Diff {
        arbitrary()
    }

    /// The largest relative error that still counts as equal.
    fn rel_tolerance() -> (r: Diff)
        ensures
            r == Self::rel_tolerance_spec(),
    ;
}

/// One default tolerance that serves for both kinds of error.
pub trait Tolerance<Diff = Self> {
    /// The tolerance that [`Self::tolerance`] returns.
    open spec fn tolerance_spec() -> Diff {
        arbitrary()
    }

    /// The largest error of either kind that still counts as equal.
    fn tolerance() -> (r: Diff)
        ensures
            r == Self::tolerance_spec(),
    ;
}

impl<Diff: Tolerance<Diff>> AbsTolerance<Diff> for Diff {
    open spec fn abs_tolerance_spec() -> Diff {
        Diff::tolerance_spec()
    }

    fn abs_tolerance() -> (r: Diff) {
        Diff::tolerance()
    }
}

impl<Diff: Tolerance<Diff>> RelTolerance<Diff> for Diff {
    open spec fn rel_tolerance_spec() -> Diff {
        Diff::tolerance_spec()
    }

    fn rel_tolerance() -> (r: Diff) {
        Diff::tolerance()
    }
}

/// Approximate equality by absolute error, under a tolerance that the caller
/// names.
pub trait AbsApproEqWithTol<Rhs: ?Sized = Self, Diff = Self> {
    /// The inputs on which the comparison can be made.
    open spec fn abs_with_tol_pre(&self, other: &Rhs) -> bool {
        true
    }

    /// Whether `self` and `other` are approximately equal under `tol`.
    open spec fn abs_with_tol_spec(&self, other: &Rhs, tol: &Diff) -> bool {
        true
    }

    /// Whether the verdict on `self` and `other` is fixed by
    /// [`Self::abs_with_tol_spec`].
    open spec fn abs_with_tol_decided(&self, other: &Rhs) -> bool {
        false
    }

    /// Tests whether the absolute error is within `tol`.
    fn abs_appro_eq_with_tol(&self, other: &Rhs, tol: &Diff) -> (r: bool)
        requires
            self.abs_with_tol_pre(other),
        ensures
            self.abs_with_tol_decided(other) ==> r == self.abs_with_tol_spec(other, tol),
    ;

    /// Tests whether the absolute error is not within `tol`.
    #[inline]
    fn abs_appro_ne_with_tol(&self, other: &Rhs, tol: &Diff) -> (r: bool)
        requires
            self.abs_with_tol_pre(other),
        ensures
            self.abs_with_tol_decided(other) ==> r == !self.abs_with_tol_spec(other, tol),
    {
        !self.abs_appro_eq_with_tol(other, tol)
    }
}

impl<Rhs, Diff: PartialOrd, T: AbsError<Rhs, Diff>> AbsApproEqWithTol<Rhs, Diff> for T {
    open spec fn abs_with_tol_pre(&self, other: &Rhs) -> bool {
        self.abs_error_pre(other)
    }

    open spec fn abs_with_tol_spec(&self, other: &Rhs, tol: &Diff) -> bool {
        within_tol(self.abs_error_spec(other), *tol)
    }

    open spec fn abs_with_tol_decided(&self, other: &Rhs) -> bool {
        verdict_decided(self.abs_error_spec(other))
    }

    #[inline]
    fn abs_appro_eq_with_tol(&self, other: &Rhs, tol: &Diff) -> (r: bool) {
        match self.abs_error(other) {
            Ok(ref val) => match val {
                Some(ref val) => val <= tol,
                None => true,
            },
            Err(_) => false,
        }
    }
}

/// Approximate equality by absolute error, under the default tolerance of
/// the distance type.
pub trait AbsApproEq<Rhs: ?Sized = Self, Diff = Self> {
    /// The inputs on which the comparison can be made.
    open spec fn abs_appro_eq_pre(&self, other: &Rhs) -> bool {
        true
    }

    /// Whether `self` and `other` are approximately equal.
    open spec fn abs_appro_eq_spec(&self, other: &Rhs) -> bool {
        true
    }

    /// Whether the verdict on `self` and `other` is fixed by
    /// [`Self::abs_appro_eq_spec`].
    open spec fn abs_appro_eq_decided(&self, other: &Rhs) -> bool {
        false
    }

    /// Tests whether the absolute error is within the default tolerance.
    fn abs_appro_eq(&self, other: &Rhs) -> (r: bool)
        requires
            self.abs_appro_eq_pre(other),
        ensures
            self.abs_appro_eq_decided(other) ==> r == self.abs_appro_eq_spec(other),
    ;

    /// Tests whether the absolute error is not within the default tolerance.
    #[inline]
    fn appro_ne_abs(&self, other: &Rhs) -> (r: bool)
        requires
            self.abs_appro_eq_pre(other),
        ensures
            self.abs_appro_eq_decided(other) ==> r == !self.abs_appro_eq_spec(other),
    {
        !self.abs_appro_eq(other)
    }
}

impl<Rhs, Diff: PartialOrd + AbsTolerance<Diff>, T: AbsApproEqWithTol<Rhs, Diff>> AbsApproEq<
    Rhs,
    Diff,
> for T {
    open spec fn abs_appro_eq_pre(&self, other: &Rhs) -> bool {
        self.abs_with_tol_pre(other)
    }

    open spec fn abs_appro_eq_spec(&self, other: &Rhs) -> bool {
        self.abs_with_tol_spec(other, &Diff::abs_tolerance_spec())
    }

    open spec fn abs_appro_eq_decided(&self, other: &Rhs) -> bool {
        self.abs_with_tol_decided(other)
    }

    #[inline]
    fn abs_appro_eq(&self, other: &Rhs) -> (r: bool) {
        self.abs_appro_eq_with_tol(other, &Diff::abs_tolerance())
    }
}

/// Approximate equality by relative error, under a tolerance that the caller
/// names.
pub trait RelApproEqWithTol<Rhs: ?Sized = Self, Diff = Self> {
    /// The inputs on which the comparison can be made.
    open spec fn rel_with_tol_pre(&self, other: &Rhs) -> bool {
        true
    }

    /// Whether `self` and `other` are approximately equal under `tol`.
    open spec fn rel_with_tol_spec(&self, other: &Rhs, tol: &Diff) -> bool {
        true
    }

    /// Whether the verdict on `self` and `other` is fixed by
    /// [`Self::rel_with_tol_spec`].
    open spec fn rel_with_tol_decided(&self, other: &Rhs) -> bool {
        false
    }

    /// Tests whether the relative error is within `tol`.
    fn rel_appro_eq_with_tol(&self, other: &Rhs, tol: &Diff) -> (r: bool)
        requires
            self.rel_with_tol_pre(other),
        ensures
            self.rel_with_tol_decided(other) ==> r == self.rel_with_tol_spec(other, tol),
    ;

    /// Tests whether the relative error is not within `tol`.
    #[inline]
    fn appro_ne_rel_with_tol(&self, other: &Rhs, tol: &Diff) -> (r: bool)
        requires
            self.rel_with_tol_pre(other),
        ensures
            self.rel_with_tol_decided(other) ==> r == !self.rel_with_tol_spec(other, tol),
    {
        !self.rel_appro_eq_with_tol(other, tol)
    }
}

impl<Rhs, Diff: PartialOrd, T: RelError<Rhs, Diff>> RelApproEqWithTol<Rhs, Diff> for T {
    open spec fn rel_with_tol_pre(&self, other: &Rhs) -> bool {
        self.rel_error_pre(other)
    }

    open spec fn rel_with_tol_spec(&self, other: &Rhs, tol: &Diff) -> bool {
        within_tol(self.rel_error_spec(other), *tol)
    }

    open spec fn rel_with_tol_decided(&self, other: &Rhs) -> bool {
        verdict_decided(self.rel_error_spec(other))
    }

    #[inline]
    fn rel_appro_eq_with_tol(&self, other: &Rhs, tol: &Diff) -> (r: bool) {
        match self.rel_error(other) {
            Ok(ref val) => match val {
                Some(ref val) => val <= tol,
                None => true,
            },
            Err(_) => false,
        }
    }
}

/// Approximate equality by relative error, under the default tolerance of
/// the distance type.
pub trait RelApproEq<Rhs: ?Sized = Self, Diff = Self> {
    /// The inputs on which the comparison can be made.
    open spec fn rel_appro_eq_pre(&self, other: &Rhs) -> bool {
        true
    }

    /// Whether `self` and `other` are approximately equal.
    open spec fn rel_appro_eq_spec(&self, other: &Rhs) -> bool {
        true
    }

    /// Whether the verdict on `self` and `other` is fixed by
    /// [`Self::rel_appro_eq_spec`].
    open spec fn rel_appro_eq_decided(&self, other: &Rhs) -> bool {
        false
    }

    /// Tests whether the relative error is within the default tolerance.
    fn rel_appro_eq(&self, other: &Rhs) -> (r: bool)
        requires
            self.rel_appro_eq_pre(other),
        ensures
            self.rel_appro_eq_decided(other) ==> r == self.rel_appro_eq_spec(other),
    ;

    /// Tests whether the relative error is not within the default tolerance.
    #[inline]
    fn rel_appro_ne(&self, other: &Rhs) -> (r: bool)
        requires
            self.rel_appro_eq_pre(other),
        ensures
            self.rel_appro_eq_decided(other) ==> r == !self.rel_appro_eq_spec(other),
    {
        !self.rel_appro_eq(other)
    }
}

impl<Rhs, Diff: PartialOrd + RelTolerance<Diff>, T: RelApproEqWithTol<Rhs, Diff>> RelApproEq<
    Rhs,
    Diff,
> for T {
    open spec fn rel_appro_eq_pre(&self, other: &Rhs) -> bool {
        self.rel_with_tol_pre(other)
    }

    open spec fn rel_appro_eq_spec(&self, other: &Rhs) -> bool {
        self.rel_with_tol_spec(other, &Diff::rel_tolerance_spec())
    }

    open spec fn rel_appro_eq_decided(&self, other: &Rhs) -> bool {
        self.rel_with_tol_decided(other)
    }

    #[inline]
    fn rel_appro_eq(&self, other: &Rhs) -> (r: bool) {
        self.rel_appro_eq_with_tol(other, &Diff::rel_tolerance())
    }
}

} // verus!
