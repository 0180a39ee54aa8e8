//! Optional values and shared pointers: the comparison looks through the
//! wrapper at the value inside.

use std::rc::Rc;
use std::sync::Arc;
use vstd::prelude::*;
use crate::error::{ApproEqError, ApproEqResult};
use crate::traits::{AbsError, RelError};

verus! {

impl<A, D, B: AbsError<A, D>> AbsError<Option<A>, D> for Option<B> {
    open spec fn abs_error_pre(&self, expected: &Option<A>) -> bool {
        match (*self, *expected) {
            (Some(x), Some(y)) => x.abs_error_pre(&y),
            _ => true,
        }
    }

    open spec fn abs_error_spec(&self, expected: &Option<A>) -> ApproEqResult<D> {
        match (*self, *expected) {
            (None, None) => Ok(None),
            (Some(x), Some(y)) => x.abs_error_spec(&y),
            _ => Err(ApproEqError::NonNumDifference),
        }
    }

    fn abs_error(&self, expected: &Option<A>) -> (r: ApproEqResult<D>) {
        match (self, expected) {
            (None, None) => Ok(None),
            (None, _) | (_, None) => Err(ApproEqError::NonNumDifference),
            (Some(x), Some(y)) => x.abs_error(y),
        }
    }
}

impl<A, D, B: RelError<A, D>> RelError<Option<A>, D> for Option<B> {
    open spec fn rel_error_pre(&self, expected: &Option<A>) -> bool {
        match (*self, *expected) {
            (Some(x), Some(y)) => x.rel_error_pre(&y),
            _ => true,
        }
    }

    open spec fn rel_error_spec(&self, expected: &Option<A>) -> ApproEqResult<D> {
        match (*self, *expected) {
            (None, None) => Ok(None),
            (Some(x), Some(y)) => x.rel_error_spec(&y),
            _ => Err(ApproEqError::NonNumDifference),
        }
    }

    fn rel_error(&self, expected: &Option<A>) -> (r: ApproEqResult<D>) {
        match (self, expected) {
            (None, None) => Ok(None),
            (None, _) | (_, None) => Err(ApproEqError::NonNumDifference),
            (Some(x), Some(y)) => x.rel_error(y),
        }
    }
}

impl<A: ?Sized, D: PartialOrd, B: AbsError<A, D> + ?Sized> AbsError<Rc<A>, D> for Rc<B> {
    open spec fn abs_error_pre(&self, expected: &Rc<A>) -> bool {
        (**self).abs_error_pre(&**expected)
    }

    open spec fn abs_error_spec(&self, expected: &Rc<A>) -> ApproEqResult<D> {
        (**self).abs_error_spec(&**expected)
    }

    fn abs_error(&self, expected: &Rc<A>) -> (r: ApproEqResult<D>) {
        (**self).abs_error(&**expected)
    }
}

impl<A: ?Sized, D: PartialOrd, B: RelError<A, D> + ?Sized> RelError<Rc<A>, D> for Rc<B> {
    open spec fn rel_error_pre(&self, expected: &Rc<A>) -> bool {
        (**self).rel_error_pre(&**expected)
    }

    open spec fn rel_error_spec(&self, expected: &Rc<A>) -> ApproEqResult<D> {
        (**self).rel_error_spec(&**expected)
    }

    fn rel_error(&self, expected: &Rc<A>) -> (r: ApproEqResult<D>) {
        (**self).rel_error(&**expected)
    }
}

impl<A: ?Sized, D: PartialOrd, B: AbsError<A, D> + ?Sized> AbsError<Arc<A>, D> for Arc<B> {
    open spec fn abs_error_pre(&self, expected: &Arc<A>) -> bool {
        (**self).abs_error_pre(&**expected)
    }

    open spec fn abs_error_spec(&self, expected: &Arc<A>) -> ApproEqResult<D> {
        (**self).abs_error_spec(&**expected)
    }

    fn abs_error(&self, expected: &Arc<A>) -> (r: ApproEqResult<D>) {
        (**self).abs_error(&**expected)
    }
}

impl<A: ?Sized, D: PartialOrd, B: RelError<A, D> + ?Sized> RelError<Arc<A>, D> for Arc<B> {
    open spec fn rel_error_pre(&self, expected: &Arc<A>) -> bool {
        (**self).rel_error_pre(&**expected)
    }

    open spec fn rel_error_spec(&self, expected: &Arc<A>) -> ApproEqResult<D> {
        (**self).rel_error_spec(&**expected)
    }

    fn rel_error(&self, expected: &Arc<A>) -> (r: ApproEqResult<D>) {
        (**self).rel_error(&**expected)
    }
}

} // verus!
