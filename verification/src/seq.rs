//! Slices, vectors, fixed-length arrays and references: the error of a
//! sequence is the worst error among its elements.

use vstd::prelude::*;
use vstd::std_specs::cmp::PartialOrdSpec;
use crate::error::{ApproEqError, ApproEqResult};
use crate::traits::{AbsError, RelError};
use crate::worst::{max, max_spec};

verus! {

/// The absolute errors of `actual` against `expected`, element by element.
pub open spec fn abs_errors<A, D, B: AbsError<A, D>>(actual: Seq<B>, expected: Seq<A>) -> Seq<
    ApproEqResult<D>,
> {
    Seq::new(actual.len(), |i: int| actual[i].abs_error_spec(&expected[i]))
}

/// The relative errors of `actual` against `expected`, element by element.
pub open spec fn rel_errors<A, D, B: RelError<A, D>>(actual: Seq<B>, expected: Seq<A>) -> Seq<
    ApproEqResult<D>,
> {
    Seq::new(actual.len(), |i: int| actual[i].rel_error_spec(&expected[i]))
}

/// Whether every pair of elements admits an absolute error.
pub open spec fn abs_errors_pre<A, D, B: AbsError<A, D>>(actual: Seq<B>, expected: Seq<A>) -> bool {
    forall|i: int| 0 <= i < actual.len() ==> (#[trigger] actual[i]).abs_error_pre(&expected[i])
}

/// Whether every pair of elements admits a relative error.
pub open spec fn rel_errors_pre<A, D, B: RelError<A, D>>(actual: Seq<B>, expected: Seq<A>) -> bool {
    forall|i: int| 0 <= i < actual.len() ==> (#[trigger] actual[i]).rel_error_pre(&expected[i])
}

/// The absolute error of two sequences: a length mismatch fails before any
/// element is looked at; otherwise the worst element decides.
pub open spec fn seq_abs_error<A, D: PartialOrd, B: AbsError<A, D>>(
    actual: Seq<B>,
    expected: Seq<A>,
) -> ApproEqResult<D> {
    if actual.len() != expected.len() {
        Err(ApproEqError::LengthMismatch)
    } else {
        max_spec(abs_errors(actual, expected))
    }
}

/// The relative error of two sequences, by the same rule.
pub open spec fn seq_rel_error<A, D: PartialOrd, B: RelError<A, D>>(
    actual: Seq<B>,
    expected: Seq<A>,
) -> ApproEqResult<D> {
    if actual.len() != expected.len() {
        Err(ApproEqError::LengthMismatch)
    } else {
        max_spec(rel_errors(actual, expected))
    }
}

/// The inputs on which two sequences can be compared by absolute error:
/// sequences of different lengths always; sequences of one length when each
/// pair of elements can be and the order on distances is lawful.
pub open spec fn seq_abs_pre<A, D: PartialOrd, B: AbsError<A, D>>(
    actual: Seq<B>,
    expected: Seq<A>,
) -> bool {
    actual.len() == expected.len() ==> D::obeys_partial_cmp_spec() && abs_errors_pre(
        actual,
        expected,
    )
}

/// The inputs on which two sequences can be compared by relative error.
pub open spec fn seq_rel_pre<A, D: PartialOrd, B: RelError<A, D>>(
    actual: Seq<B>,
    expected: Seq<A>,
) -> bool {
    actual.len() == expected.len() ==> D::obeys_partial_cmp_spec() && rel_errors_pre(
        actual,
        expected,
    )
}

/// Compares two slices by absolute error.
pub fn slice_abs_error<A, D: PartialOrd, B: AbsError<A, D>>(actual: &[B], expected: &[A]) -> (r:
    ApproEqResult<D>)
    requires
        seq_abs_pre(actual@, expected@),
    ensures
        r == seq_abs_error(actual@, expected@),
{
    if actual.len() != expected.len() {
        return Err(ApproEqError::LengthMismatch);
    }
    let mut errors: Vec<ApproEqResult<D>> = Vec::new();
    let mut i: usize = 0;
    while i < actual.len()
        invariant
            actual@.len() == expected@.len(),
            abs_errors_pre(actual@, expected@),
            i <= actual@.len(),
            errors@ == abs_errors(actual@, expected@).take(i as int),
        decreases actual@.len() - i,
    {
        let e = actual[i].abs_error(&expected[i]);
        errors.push(e);
        i += 1;
        proof {
            assert(errors@ == abs_errors(actual@, expected@).take(i as int));
        }
    }
    proof {
        assert(errors@ == abs_errors(actual@, expected@));
    }
    max(errors.into_iter())
}

/// Compares two slices by relative error.
pub fn slice_rel_error<A, D: PartialOrd, B: RelError<A, D>>(actual: &[B], expected: &[A]) -> (r:
    ApproEqResult<D>)
    requires
        seq_rel_pre(actual@, expected@),
    ensures
        r == seq_rel_error(actual@, expected@),
{
    if actual.len() != expected.len() {
        return Err(ApproEqError::LengthMismatch);
    }
    let mut errors: Vec<ApproEqResult<D>> = Vec::new();
    let mut i: usize = 0;
    while i < actual.len()
        invariant
            actual@.len() == expected@.len(),
            rel_errors_pre(actual@, expected@),
            i <= actual@.len(),
            errors@ == rel_errors(actual@, expected@).take(i as int),
        decreases actual@.len() - i,
    {
        let e = actual[i].rel_error(&expected[i]);
        errors.push(e);
        i += 1;
        proof {
            assert(errors@ == rel_errors(actual@, expected@).take(i as int));
        }
    }
    proof {
        assert(errors@ == rel_errors(actual@, expected@));
    }
    max(errors.into_iter())
}

impl<A, D: PartialOrd, B: AbsError<A, D>> AbsError<[A], D> for [B] {
    open spec fn abs_error_pre(&self, expected: &[A]) -> bool {
        seq_abs_pre(self@, expected@)
    }

    open spec fn abs_error_spec(&self, expected: &[A]) -> ApproEqResult<D> {
        seq_abs_error(self@, expected@)
    }

    fn abs_error(&self, expected: &[A]) -> (r: ApproEqResult<D>) {
        slice_abs_error(self, expected)
    }
}

impl<A, D: PartialOrd, B: RelError<A, D>> RelError<[A], D> for [B] {
    open spec fn rel_error_pre(&self, expected: &[A]) -> bool {
        seq_rel_pre(self@, expected@)
    }

    open spec fn rel_error_spec(&self, expected: &[A]) -> ApproEqResult<D> {
        seq_rel_error(self@, expected@)
    }

    fn rel_error(&self, expected: &[A]) -> (r: ApproEqResult<D>) {
        slice_rel_error(self, expected)
    }
}

impl<A, D: PartialOrd, B: AbsError<A, D>> AbsError<Vec<A>, D> for Vec<B> {
    open spec fn abs_error_pre(&self, expected: &Vec<A>) -> bool {
        seq_abs_pre(self@, expected@)
    }

    open spec fn abs_error_spec(&self, expected: &Vec<A>) -> ApproEqResult<D> {
        seq_abs_error(self@, expected@)
    }

    fn abs_error(&self, expected: &Vec<A>) -> (r: ApproEqResult<D>) {
        slice_abs_error(self.as_slice(), expected.as_slice())
    }
}

impl<A, D: PartialOrd, B: RelError<A, D>> RelError<Vec<A>, D> for Vec<B> {
    open spec fn rel_error_pre(&self, expected: &Vec<A>) -> bool {
        seq_rel_pre(self@, expected@)
    }

    open spec fn rel_error_spec(&self, expected: &Vec<A>) -> ApproEqResult<D> {
        seq_rel_error(self@, expected@)
    }

    fn rel_error(&self, expected: &Vec<A>) -> (r: ApproEqResult<D>) {
        slice_rel_error(self.as_slice(), expected.as_slice())
    }
}

impl<A, D: PartialOrd, B: AbsError<A, D>, const N: usize> AbsError<[A; N], D> for [B; N] {
    open spec fn abs_error_pre(&self, expected: &[A; N]) -> bool {
        seq_abs_pre(self@, expected@)
    }

    open spec fn abs_error_spec(&self, expected: &[A; N]) -> ApproEqResult<D> {
        max_spec(abs_errors(self@, expected@))
    }

    fn abs_error(&self, expected: &[A; N]) -> (r: ApproEqResult<D>) {
        slice_abs_error(self.as_slice(), expected.as_slice())
    }
}

impl<A, D: PartialOrd, B: RelError<A, D>, const N: usize> RelError<[A; N], D> for [B; N] {
    open spec fn rel_error_pre(&self, expected: &[A; N]) -> bool {
        seq_rel_pre(self@, expected@)
    }

    open spec fn rel_error_spec(&self, expected: &[A; N]) -> ApproEqResult<D> {
        max_spec(rel_errors(self@, expected@))
    }

    fn rel_error(&self, expected: &[A; N]) -> (r: ApproEqResult<D>) {
        slice_rel_error(self.as_slice(), expected.as_slice())
    }
}

impl<'a, A: ?Sized, D: PartialOrd, B: AbsError<A, D> + ?Sized> AbsError<&'a A, D> for &'a B {
    open spec fn abs_error_pre(&self, expected: &&'a A) -> bool {
        (**self).abs_error_pre(*expected)
    }

    open spec fn abs_error_spec(&self, expected: &&'a A) -> ApproEqResult<D> {
        (**self).abs_error_spec(*expected)
    }

    fn abs_error(&self, expected: &&'a A) -> (r: ApproEqResult<D>) {
        (*self).abs_error(*expected)
    }
}

impl<'a, A: ?Sized, D: PartialOrd, B: RelError<A, D> + ?Sized> RelError<&'a A, D> for &'a B {
    open spec fn rel_error_pre(&self, expected: &&'a A) -> bool {
        (**self).rel_error_pre(*expected)
    }

    open spec fn rel_error_spec(&self, expected: &&'a A) -> ApproEqResult<D> {
        (**self).rel_error_spec(*expected)
    }

    fn rel_error(&self, expected: &&'a A) -> (r: ApproEqResult<D>) {
        (*self).rel_error(*expected)
    }
}

} // verus!
