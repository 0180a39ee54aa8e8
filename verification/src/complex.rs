//! Values of two parts, a real and an imaginary one: the errors of the
//! parts are found separately and then combined.

use vstd::prelude::*;
use crate::error::ApproEqResult;

verus! {

/// What is left to do once both parts have been compared.
pub enum Parts<D> {
    /// The outcome is settled without any arithmetic on distances.
    Settled(ApproEqResult<D>),
    /// Both parts have a distance, the real part's first; the overall
    /// distance is the square root of the sum of their squares.
    Both(D, D),
}

/// How the outcomes of the real and the imaginary part combine. A failure
/// of the real part is the outcome, else a failure of the imaginary part.
/// Where only one part has a distance, that distance is the outcome; where
/// neither has, there is none.
pub open spec fn combine_parts_spec<D>(diff_re: ApproEqResult<D>, diff_im: ApproEqResult<D>) -> Parts<D> {
    match (diff_re, diff_im) {
        (Err(_), _) => Parts::Settled(diff_re),
        (_, Err(_)) => Parts::Settled(diff_im),
        (Ok(None), _) => Parts::Settled(diff_im),
        (_, Ok(None)) => Parts::Settled(diff_re),
        (Ok(Some(re)), Ok(Some(im))) => Parts::Both(re, im),
    }
}

/// Combines the outcomes of the two parts as far as that takes no
/// arithmetic on distances.
pub fn combine_parts<D>(diff_re: ApproEqResult<D>, diff_im: ApproEqResult<D>) -> (r: Parts<D>)
    ensures
        r == combine_parts_spec(diff_re, diff_im),
{
    match (diff_re, diff_im) {
        (Err(e), _) => Parts::Settled(Err(e)),
        (_, Err(e)) => Parts::Settled(Err(e)),
        (Ok(None), im) => Parts::Settled(im),
        (re, Ok(None)) => Parts::Settled(re),
        (Ok(Some(re)), Ok(Some(im))) => Parts::Both(re, im),
    }
}

} // verus!
