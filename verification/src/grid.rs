//! Dense n-dimensional arrays: the shapes must agree axis by axis, then the
//! elements are compared in row-major order and the worst one decides.

use ndarray::{ArrayD, Axis, IxDyn};
use vstd::prelude::*;
use crate::error::{ApproEqError, ApproEqResult};
use crate::seq::{seq_abs_error, seq_abs_pre, seq_rel_error, seq_rel_pre, slice_abs_error, slice_rel_error};
use crate::traits::{AbsError, RelError};

verus! {

/// A dense array of `i64` with any number of axes, kept by `ndarray`.
///
/// The verifier does not look inside: what it knows of a grid are its shape
/// ([`grid_shape`]) and its elements ([`grid_items`]), as the functions of
/// this module report them.
#[verifier::external_body]
pub struct Grid {
    inner: ArrayD<i64>,
}

/// The extent of each axis of `g`, outermost axis first.
pub uninterp spec fn grid_shape(g: Grid) -> Seq<usize>;

/// The elements of `g` in row-major order: the last index varies fastest.
pub uninterp spec fn grid_items(g: Grid) -> Seq<i64>;

/// The number of elements that a grid of the given shape holds: the
/// product of its extents.
pub open spec fn volume(shape: Seq<usize>) -> nat
    decreases shape.len(),
{
    if shape.len() == 0 {
        1
    } else {
        volume(shape.drop_last()) * (shape.last() as nat)
    }
}

/// The product of the extents of `shape` that are not zero.
pub open spec fn nonzero_volume(shape: Seq<usize>) -> nat
    decreases shape.len(),
{
    if shape.len() == 0 {
        1
    } else if shape.last() == 0 {
        nonzero_volume(shape.drop_last())
    } else {
        nonzero_volume(shape.drop_last()) * (shape.last() as nat)
    }
}

/// `ArrayBase::from_shape_vec` with a shape in default (row-major) layout.
/// It accepts exactly when the extents that are not zero multiply to at
/// most `isize::MAX` and `items` has as many elements as the shape holds;
/// the array then has that shape and holds the elements of `items` in
/// their order.
#[verifier::external_body]
fn grid_from_shape_vec(shape: &Vec<usize>, items: Vec<i64>) -> (r: Option<Grid>)
    ensures
        r.is_some() == (nonzero_volume(shape@) <= isize::MAX && volume(shape@) == items@.len()),
        r matches Some(g) ==> grid_shape(g) == shape@ && grid_items(g) == items@,
{
    match ArrayD::from_shape_vec(IxDyn(shape.as_slice()), items) {
        Ok(inner) => Some(Grid { inner }),
        Err(_) => None,
    }
}

/// `ArrayBase::ndim`: the number of axes.
#[verifier::external_body]
fn grid_ndim(g: &Grid) -> (n: usize)
    ensures
        n == grid_shape(*g).len(),
{
    g.inner.ndim()
}

/// `ArrayBase::len_of`: the extent of one axis. It panics on an axis that
/// the array does not have, which the precondition leaves out.
#[verifier::external_body]
fn grid_len_of(g: &Grid, axis: usize) -> (n: usize)
    requires
        axis < grid_shape(*g).len(),
    ensures
        n == grid_shape(*g)[axis as int],
{
    g.inner.len_of(Axis(axis))
}

/// `ArrayBase::iter`: the elements in logical order, copied out.
#[verifier::external_body]
fn grid_elements(g: &Grid) -> (v: Vec<i64>)
    ensures
        v@ == grid_items(*g),
{
    g.inner.iter().copied().collect()
}

/// The absolute error of two shaped runs of elements: any difference in
/// shape fails; otherwise the runs are compared as sequences.
pub open spec fn shaped_abs_error<A, D: PartialOrd, B: AbsError<A, D>>(
    actual_shape: Seq<usize>,
    actual: Seq<B>,
    expected_shape: Seq<usize>,
    expected: Seq<A>,
) -> ApproEqResult<D> {
    if actual_shape != expected_shape {
        Err(ApproEqError::LengthMismatch)
    } else {
        seq_abs_error(actual, expected)
    }
}

/// The relative error of two shaped runs of elements, by the same rule.
pub open spec fn shaped_rel_error<A, D: PartialOrd, B: RelError<A, D>>(
    actual_shape: Seq<usize>,
    actual: Seq<B>,
    expected_shape: Seq<usize>,
    expected: Seq<A>,
) -> ApproEqResult<D> {
    if actual_shape != expected_shape {
        Err(ApproEqError::LengthMismatch)
    } else {
        seq_rel_error(actual, expected)
    }
}

/// Whether two shapes agree: the same number of axes and the same extent
/// on each.
pub fn same_shape(actual: &[usize], expected: &[usize]) -> (r: bool)
    ensures
        r == (actual@ == expected@),
{
    if actual.len() != expected.len() {
        return false;
    }
    let mut n: usize = 0;
    while n < actual.len()
        invariant
            actual@.len() == expected@.len(),
            n <= actual@.len(),
            actual@.take(n as int) == expected@.take(n as int),
        decreases actual@.len() - n,
    {
        if actual[n] != expected[n] {
            proof {
                assert(actual@[n as int] != expected@[n as int]);
            }
            return false;
        }
        n += 1;
        proof {
            assert(actual@.take(n as int) == actual@.take(n - 1).push(actual@[n - 1]));
            assert(expected@.take(n as int) == expected@.take(n - 1).push(expected@[n - 1]));
        }
    }
    proof {
        assert(actual@ == actual@.take(n as int));
        assert(expected@ == expected@.take(n as int));
    }
    true
}

impl Grid {
    /// Builds a grid of the given shape from its elements in row-major
    /// order. `None` when the number of elements is not what the shape
    /// holds, or when the extents that are not zero multiply to more than
    /// `isize::MAX`.
    pub fn from_shape_vec(shape: &Vec<usize>, items: Vec<i64>) -> (r: Option<Grid>)
        ensures
            r.is_some() == (nonzero_volume(shape@) <= isize::MAX && volume(shape@) == items@.len()),
            r matches Some(g) ==> grid_shape(g) == shape@ && grid_items(g) == items@,
    {
        grid_from_shape_vec(shape, items)
    }

    /// The extent of each axis, outermost first.
    pub fn shape(&self) -> (shape: Vec<usize>)
        ensures
            shape@ == grid_shape(*self),
    {
        let n = grid_ndim(self);
        let mut shape: Vec<usize> = Vec::new();
        let mut axis: usize = 0;
        while axis < n
            invariant
                n == grid_shape(*self).len(),
                axis <= n,
                shape@ == grid_shape(*self).take(axis as int),
            decreases n - axis,
        {
            shape.push(grid_len_of(self, axis));
            axis += 1;
            proof {
                assert(shape@ == grid_shape(*self).take(axis as int));
            }
        }
        proof {
            assert(shape@ == grid_shape(*self));
        }
        shape
    }

    /// The elements in row-major order.
    pub fn items(&self) -> (items: Vec<i64>)
        ensures
            items@ == grid_items(*self),
    {
        grid_elements(self)
    }
}

/// Compares two shaped runs of elements by absolute error.
pub fn shaped_slice_abs_error<A, D: PartialOrd, B: AbsError<A, D>>(
    actual_shape: &[usize],
    actual: &[B],
    expected_shape: &[usize],
    expected: &[A],
) -> (r: ApproEqResult<D>)
    requires
        actual_shape@ == expected_shape@ ==> seq_abs_pre(actual@, expected@),
    ensures
        r == shaped_abs_error(actual_shape@, actual@, expected_shape@, expected@),
{
    if !same_shape(actual_shape, expected_shape) {
        return Err(ApproEqError::LengthMismatch);
    }
    slice_abs_error(actual, expected)
}

/// Compares two shaped runs of elements by relative error.
pub fn shaped_slice_rel_error<A, D: PartialOrd, B: RelError<A, D>>(
    actual_shape: &[usize],
    actual: &[B],
    expected_shape: &[usize],
    expected: &[A],
) -> (r: ApproEqResult<D>)
    requires
        actual_shape@ == expected_shape@ ==> seq_rel_pre(actual@, expected@),
    ensures
        r == shaped_rel_error(actual_shape@, actual@, expected_shape@, expected@),
{
    if !same_shape(actual_shape, expected_shape) {
        return Err(ApproEqError::LengthMismatch);
    }
    slice_rel_error(actual, expected)
}

/// Whether two grids have the same number of axes and the same extent on
/// each axis.
fn grids_agree(actual: &Grid, expected: &Grid) -> (r: bool)
    ensures
        r == (grid_shape(*actual) == grid_shape(*expected)),
{
    if grid_ndim(actual) != grid_ndim(expected) {
        return false;
    }
    let n = grid_ndim(actual);
    let mut axis: usize = 0;
    while axis < n
        invariant
            n == grid_shape(*actual).len(),
            n == grid_shape(*expected).len(),
            axis <= n,
            grid_shape(*actual).take(axis as int) == grid_shape(*expected).take(axis as int),
        decreases n - axis,
    {
        if grid_len_of(actual, axis) != grid_len_of(expected, axis) {
            proof {
                assert(grid_shape(*actual)[axis as int] != grid_shape(*expected)[axis as int]);
            }
            return false;
        }
        axis += 1;
        proof {
            let a = grid_shape(*actual);
            let b = grid_shape(*expected);
            assert(a.take(axis as int) == a.take(axis - 1).push(a[axis - 1]));
            assert(b.take(axis as int) == b.take(axis - 1).push(b[axis - 1]));
        }
    }
    proof {
        assert(grid_shape(*actual) == grid_shape(*actual).take(n as int));
        assert(grid_shape(*expected) == grid_shape(*expected).take(n as int));
    }
    true
}

impl AbsError<Grid, i64> for Grid {
    open spec fn abs_error_pre(&self, expected: &Grid) -> bool {
        grid_shape(*self) == grid_shape(*expected) ==> seq_abs_pre::<i64, i64, i64>(
            grid_items(*self),
            grid_items(*expected),
        )
    }

    open spec fn abs_error_spec(&self, expected: &Grid) -> ApproEqResult<i64> {
        shaped_abs_error::<i64, i64, i64>(
            grid_shape(*self),
            grid_items(*self),
            grid_shape(*expected),
            grid_items(*expected),
        )
    }

    fn abs_error(&self, expected: &Grid) -> (r: ApproEqResult<i64>) {
        if !grids_agree(self, expected) {
            return Err(ApproEqError::LengthMismatch);
        }
        let actual = grid_elements(self);
        let wanted = grid_elements(expected);
        slice_abs_error(actual.as_slice(), wanted.as_slice())
    }
}

impl RelError<Grid, i64> for Grid {
    open spec fn rel_error_pre(&self, expected: &Grid) -> bool {
        grid_shape(*self) == grid_shape(*expected) ==> seq_rel_pre::<i64, i64, i64>(
            grid_items(*self),
            grid_items(*expected),
        )
    }

    open spec fn rel_error_spec(&self, expected: &Grid) -> ApproEqResult<i64> {
        shaped_rel_error::<i64, i64, i64>(
            grid_shape(*self),
            grid_items(*self),
            grid_shape(*expected),
            grid_items(*expected),
        )
    }

    fn rel_error(&self, expected: &Grid) -> (r: ApproEqResult<i64>) {
        if !grids_agree(self, expected) {
            return Err(ApproEqError::LengthMismatch);
        }
        let actual = grid_elements(self);
        let wanted = grid_elements(expected);
        slice_rel_error(actual.as_slice(), wanted.as_slice())
    }
}

} // verus!
