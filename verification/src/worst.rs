//! The worst case over a run of element-wise errors.

use vstd::prelude::*;
use vstd::std_specs::cmp::PartialOrdIs;
use vstd::std_specs::cmp::PartialOrdSpec;
use vstd::std_specs::iter::IteratorSpec;
use crate::error::{ApproEqError, ApproEqResult};

verus! {

/// The running worst case `m` after one more outcome `i`: a failure already
/// met stays; a new failure replaces any distance; an absent distance gives
/// way to any distance; of two distances the later one wins only when it is
/// strictly greater.
pub open spec fn worse_of<D: PartialOrd>(m: ApproEqResult<D>, i: ApproEqResult<D>) -> ApproEqResult<D> {
    match (m, i) {
        (Err(_), _) => m,
        (_, Err(_)) => i,
        (Ok(None), _) => i,
        (_, Ok(None)) => m,
        (Ok(Some(a)), Ok(Some(b))) => if b.is_gt(&a) {
            i
        } else {
            m
        },
    }
}

/// The worst case over `items`, taken from the left; `Ok(None)` for no items.
pub open spec fn max_spec<D: PartialOrd>(items: Seq<ApproEqResult<D>>) -> ApproEqResult<D>
    decreases items.len(),
{
    if items.len() == 0 {
        Ok(None)
    } else {
        worse_of(max_spec(items.drop_last()), items.last())
    }
}

/// The index of the first failure among `items`, or their number when none
/// of them is a failure.
pub open spec fn first_failure<D>(items: Seq<ApproEqResult<D>>) -> int
    decreases items.len(),
{
    if items.len() == 0 {
        0
    } else {
        let before = first_failure(items.drop_last());
        if before < items.len() - 1 || items.last() is Err {
            before
        } else {
            items.len() as int
        }
    }
}

/// `first_failure` is what its name says: nothing before it fails, and
/// where it lies within `items`, the outcome there is a failure.
pub proof fn lemma_first_failure<D>(items: Seq<ApproEqResult<D>>)
    ensures
        0 <= first_failure(items) <= items.len(),
        forall|i: int| 0 <= i < first_failure(items) ==> (#[trigger] items[i]) is Ok,
        first_failure(items) < items.len() ==> items[first_failure(items)] is Err,
    decreases items.len(),
{
    if items.len() > 0 {
        lemma_first_failure(items.drop_last());
        let before = first_failure(items.drop_last());
        assert forall|i: int| 0 <= i < first_failure(items) implies (#[trigger] items[i]) is Ok by {
            if i < items.len() - 1 {
                assert(items[i] == items.drop_last()[i]);
            }
        }
        if before < items.len() - 1 {
            assert(items[before] == items.drop_last()[before]);
        }
    }
}

/// Folds one more outcome into the running worst case: [`worse_of`] under
/// a lawful order on distances, and one of the two under any order.
pub fn max_step<D: PartialOrd>(m: ApproEqResult<D>, i: ApproEqResult<D>) -> (r: ApproEqResult<D>)
    ensures
        D::obeys_partial_cmp_spec() ==> r == worse_of(m, i),
        m is Err ==> r == m,
        m is Ok && i is Err ==> r == i,
        m == Ok::<Option<D>, ApproEqError>(None) ==> r == i,
        r == m || r == i,
{
    let take = match (&m, &i) {
        (Err(_), _) => false,
        (_, Err(_)) => true,
        (Ok(None), _) => true,
        (_, Ok(None)) => false,
        (Ok(Some(m)), Ok(Some(i))) => i > m,
    };
    if take {
        i
    } else {
        m
    }
}

/// The worst case over everything that `iter` yields, which must be an
/// iterator that comes to an end.
///
/// Under a lawful order on distances the result is [`max_spec`] of what the
/// iterator yields. Under any order, the first failure is the result if
/// there is one, and a distance that comes back is one that was yielded.
pub fn max<D: PartialOrd, T: Iterator<Item = ApproEqResult<D>>>(iter: T) -> (r: ApproEqResult<D>)
    requires
        iter.obeys_prophetic_iter_laws(),
        iter.decrease() is Some,
    ensures
        D::obeys_partial_cmp_spec() ==> r == max_spec(iter.remaining()),
        first_failure(iter.remaining()) < iter.remaining().len() ==> r == iter.remaining()[first_failure(
            iter.remaining(),
        )],
        first_failure(iter.remaining()) == iter.remaining().len() ==> r is Ok,
        r matches Ok(Some(_)) ==> iter.remaining().contains(r),
{
    let mut iter = iter;
    let mut m: ApproEqResult<D> = Ok(None);
    let ghost all = iter.remaining();
    let ghost mut seen: int = 0;
    loop
        invariant_except_break
            iter.obeys_prophetic_iter_laws(),
            iter.decrease() is Some,
            0 <= seen <= all.len(),
            iter.remaining() == all.skip(seen),
            D::obeys_partial_cmp_spec() ==> m == max_spec(all.take(seen)),
            first_failure(all.take(seen)) < seen ==> m == all[first_failure(all.take(seen))],
            first_failure(all.take(seen)) == seen ==> m is Ok,
            m matches Ok(Some(_)) ==> all.contains(m),
        ensures
            D::obeys_partial_cmp_spec() ==> m == max_spec(all),
            first_failure(all) < all.len() ==> m == all[first_failure(all)],
            first_failure(all) == all.len() ==> m is Ok,
            m matches Ok(Some(_)) ==> all.contains(m),
        decreases iter.decrease()->0,
    {
        match iter.next() {
            Some(i) => {
                proof {
                    assert(all.take(seen + 1).drop_last() == all.take(seen));
                    assert(all.skip(seen).drop_first() == all.skip(seen + 1));
                    assert(i == all[seen]);
                    lemma_first_failure(all.take(seen));
                    seen = seen + 1;
                }
                m = max_step(m, i);
            },
            None => {
                proof {
                    assert(all.take(seen) == all);
                }
                break ;
            },
        }
    }
    m
}

} // verus!
