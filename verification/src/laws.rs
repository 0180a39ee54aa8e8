//! What holds of every comparison, whatever the types involved.

use std::rc::Rc;
use std::sync::Arc;
use vstd::prelude::*;
use vstd::std_specs::cmp::PartialOrdIs;
use vstd::std_specs::cmp::PartialOrdSpec;
use crate::error::{ApproEqError, ApproEqResult};
use crate::seq::{abs_errors, seq_abs_error, seq_abs_pre};
use crate::grid::{grid_items, grid_shape, Grid};
use crate::time::TimeSpan;
use crate::traits::{
    within_tol, AbsApproEqWithTol, AbsError, AbsTolerance, RelApproEqWithTol, RelError,
};
use crate::worst::{first_failure, lemma_first_failure, max_spec};

verus! {

/// The order on `D` is lawful and total: any two values can be compared,
/// a value greater than another has that other at most as large as
/// itself, and "at most" is transitive.
pub open spec fn totally_ordered<D: PartialOrd>() -> bool {
    &&& D::obeys_partial_cmp_spec()
    &&& forall|a: D, b: D| #![trigger a.partial_cmp_spec(&b)] a.partial_cmp_spec(&b) is Some
    &&& forall|a: D, b: D| #![trigger a.partial_cmp_spec(&b)] a.is_gt(&b) ==> b.is_le(&a)
    &&& forall|a: D, b: D, c: D|
        #![trigger a.partial_cmp_spec(&b), b.partial_cmp_spec(&c)]
        a.is_le(&b) && b.is_le(&c) ==> a.is_le(&c)
}

/// The orders on the primitive integers are lawful and total.
pub proof fn lemma_integers_totally_ordered()
    ensures
        totally_ordered::<u8>(),
        totally_ordered::<u16>(),
        totally_ordered::<u32>(),
        totally_ordered::<u64>(),
        totally_ordered::<u128>(),
        totally_ordered::<i8>(),
        totally_ordered::<i16>(),
        totally_ordered::<i32>(),
        totally_ordered::<i64>(),
        totally_ordered::<i128>(),
{
}

/// The order on spans of time is lawful and total.
pub proof fn lemma_time_spans_totally_ordered()
    ensures
        totally_ordered::<TimeSpan>(),
{
}

/// Whether `x` compares as equal to itself: the comparison can be made, it
/// does not fail, and its outcome is within the default tolerance.
pub open spec fn reflexive_at<T: AbsError<T, D>, D: PartialOrd + AbsTolerance<D>>(x: T) -> bool {
    &&& x.abs_error_pre(&x)
    &&& x.abs_error_spec(&x) is Ok
    &&& within_tol(x.abs_error_spec(&x), D::abs_tolerance_spec())
}

/// The worst case over no outcomes at all is the absence of a distance.
pub proof fn law_worst_of_nothing<D: PartialOrd>()
    ensures
        max_spec(Seq::<ApproEqResult<D>>::empty()) == Ok::<Option<D>, ApproEqError>(None),
{
}

/// The first failure among the outcomes is the worst case; without a
/// failure the worst case is none, and is then either no distance or the
/// distance of one of the outcomes.
pub proof fn law_first_failure_wins<D: PartialOrd>(items: Seq<ApproEqResult<D>>)
    ensures
        first_failure(items) < items.len() ==> max_spec(items) == items[first_failure(items)],
        first_failure(items) == items.len() ==> max_spec(items) is Ok,
        max_spec(items) == Ok::<Option<D>, ApproEqError>(None) || items.contains(max_spec(items)),
    decreases items.len(),
{
    lemma_first_failure(items);
    if items.len() > 0 {
        let front = items.drop_last();
        law_first_failure_wins(front);
        lemma_first_failure(front);
        if first_failure(front) < front.len() {
            assert(front[first_failure(front)] == items[first_failure(front)]);
        }
        if front.contains(max_spec(front)) {
            let i = choose|i: int| 0 <= i < front.len() && front[i] == max_spec(front);
            assert(items[i] == max_spec(front));
        }
        assert(items[items.len() - 1] == items.last());
    }
}

/// Under a total order, a run of outcomes is within a tolerance exactly
/// when every one of them is: the worst element decides.
pub proof fn law_worst_decides<D: PartialOrd>(items: Seq<ApproEqResult<D>>, tol: D)
    requires
        totally_ordered::<D>(),
    ensures
        within_tol(max_spec(items), tol) <==> forall|i: int|
            0 <= i < items.len() ==> within_tol(#[trigger] items[i], tol),
    decreases items.len(),
{
    if items.len() > 0 {
        let front = items.drop_last();
        let last = items.last();
        law_worst_decides(front, tol);
        assert forall|i: int| 0 <= i < front.len() implies front[i] == items[i] by {}
        if within_tol(max_spec(items), tol) {
            assert forall|i: int| 0 <= i < items.len() implies within_tol(#[trigger] items[i], tol) by {
                if i < front.len() {
                    assert(front[i] == items[i]);
                }
            }
        }
        if forall|i: int| 0 <= i < items.len() ==> within_tol(#[trigger] items[i], tol) {
            assert(within_tol(items[items.len() - 1], tol));
            assert forall|i: int| 0 <= i < front.len() implies within_tol(#[trigger] front[i], tol) by {
                assert(within_tol(items[i], tol));
            }
        }
    }
}

/// Sequences of different lengths are never approximately equal, whatever
/// the tolerance and whatever their elements.
pub proof fn law_length_mismatch<A, D: PartialOrd, B: AbsError<A, D> + RelError<A, D>>(
    actual: Vec<B>,
    expected: Vec<A>,
    tol: D,
)
    requires
        actual@.len() != expected@.len(),
    ensures
        actual.abs_with_tol_pre(&expected),
        actual.abs_with_tol_decided(&expected),
        !actual.abs_with_tol_spec(&expected, &tol),
        actual.rel_with_tol_pre(&expected),
        actual.rel_with_tol_decided(&expected),
        !actual.rel_with_tol_spec(&expected, &tol),
{
}

/// A present value and an absent one are never approximately equal; two
/// absent values always are.
pub proof fn law_option_asymmetry<A, D: PartialOrd, B: AbsError<A, D>>(x: B, y: A, tol: D)
    ensures
        Some(x).abs_with_tol_pre(&None::<A>),
        Some(x).abs_with_tol_decided(&None::<A>),
        !Some(x).abs_with_tol_spec(&None::<A>, &tol),
        None::<B>.abs_with_tol_pre(&Some(y)),
        None::<B>.abs_with_tol_decided(&Some(y)),
        !None::<B>.abs_with_tol_spec(&Some(y), &tol),
        None::<B>.abs_with_tol_pre(&None::<A>),
        None::<B>.abs_with_tol_decided(&None::<A>),
        None::<B>.abs_with_tol_spec(&None::<A>, &tol),
{
}

/// Two present values compare as the values themselves do.
pub proof fn law_option_transparent<A, D: PartialOrd, B: AbsError<A, D>>(x: B, y: A, tol: D)
    ensures
        Some(x).abs_with_tol_pre(&Some(y)) == x.abs_with_tol_pre(&y),
        Some(x).abs_with_tol_decided(&Some(y)) == x.abs_with_tol_decided(&y),
        Some(x).abs_with_tol_spec(&Some(y), &tol) == x.abs_with_tol_spec(&y, &tol),
{
}

/// Two values behind reference-counted pointers compare as the values
/// themselves do.
pub proof fn law_rc_transparent<A, D: PartialOrd, B: AbsError<A, D>>(x: Rc<B>, y: Rc<A>, tol: D)
    ensures
        x.abs_with_tol_pre(&y) == (*x).abs_with_tol_pre(&*y),
        x.abs_with_tol_decided(&y) == (*x).abs_with_tol_decided(&*y),
        x.abs_with_tol_spec(&y, &tol) == (*x).abs_with_tol_spec(&*y, &tol),
{
}

/// Two values behind atomically reference-counted pointers compare as the
/// values themselves do.
pub proof fn law_arc_transparent<A, D: PartialOrd, B: AbsError<A, D>>(x: Arc<B>, y: Arc<A>, tol: D)
    ensures
        x.abs_with_tol_pre(&y) == (*x).abs_with_tol_pre(&*y),
        x.abs_with_tol_decided(&y) == (*x).abs_with_tol_decided(&*y),
        x.abs_with_tol_spec(&y, &tol) == (*x).abs_with_tol_spec(&*y, &tol),
{
}

/// An optional value compares as equal to itself when the value inside, if
/// any, does.
pub proof fn law_reflexive_option<T: AbsError<T, D>, D: PartialOrd + AbsTolerance<D>>(x: Option<T>)
    requires
        x matches Some(v) ==> reflexive_at::<T, D>(v),
    ensures
        reflexive_at::<Option<T>, D>(x),
{
}

/// A sequence compares as equal to itself when each of its elements does.
pub proof fn law_reflexive_seq<T: AbsError<T, D>, D: PartialOrd + AbsTolerance<D>>(xs: Seq<T>)
    requires
        D::obeys_partial_cmp_spec(),
        forall|i: int| 0 <= i < xs.len() ==> reflexive_at::<T, D>(#[trigger] xs[i]),
    ensures
        seq_abs_pre::<T, D, T>(xs, xs),
        seq_abs_error::<T, D, T>(xs, xs) is Ok,
        within_tol(seq_abs_error::<T, D, T>(xs, xs), D::abs_tolerance_spec()),
{
    let items = abs_errors::<T, D, T>(xs, xs);
    law_first_failure_wins(items);
    lemma_first_failure(items);
    if first_failure(items) < items.len() {
        assert(reflexive_at::<T, D>(xs[first_failure(items)]));
    }
    if items.contains(max_spec(items)) {
        let i = choose|i: int| 0 <= i < items.len() && items[i] == max_spec(items);
        assert(reflexive_at::<T, D>(xs[i]));
    }
}

/// A vector compares as equal to itself when each of its elements does.
pub proof fn law_reflexive_vec<T: AbsError<T, D>, D: PartialOrd + AbsTolerance<D>>(xs: Vec<T>)
    requires
        D::obeys_partial_cmp_spec(),
        forall|i: int| 0 <= i < xs@.len() ==> reflexive_at::<T, D>(#[trigger] xs@[i]),
    ensures
        reflexive_at::<Vec<T>, D>(xs),
{
    law_reflexive_seq::<T, D>(xs@);
}

/// A grid compares as equal to itself.
pub proof fn law_reflexive_grid(g: Grid)
    ensures
        reflexive_at::<Grid, i64>(g),
{
    law_reflexive_seq::<i64, i64>(grid_items(g));
}

/// Grids of different shapes are never approximately equal, whatever the
/// tolerance and whatever their elements.
pub proof fn law_shape_mismatch(actual: Grid, expected: Grid, tol: i64)
    requires
        grid_shape(actual) != grid_shape(expected),
    ensures
        actual.abs_with_tol_pre(&expected),
        actual.abs_with_tol_decided(&expected),
        !actual.abs_with_tol_spec(&expected, &tol),
        actual.rel_with_tol_pre(&expected),
        actual.rel_with_tol_decided(&expected),
        !actual.rel_with_tol_spec(&expected, &tol),
{
}

} // verus!
