//! The ways in which a comparison can fail to produce a distance.

use vstd::prelude::*;

verus! {

/// Why two values could not be compared.
#[derive(Debug)]
pub enum ApproEqError {
    /// Two structured values differ in element count or dimensionality.
    LengthMismatch,
    /// One operand holds a value and the other does not.
    NonNumDifference,
    /// A relative error was asked against an expected value of zero.
    DividedByZero,
    /// The distance does not fit in its type.
    Overflow,
    /// A part of the computation failed; the text describes the cause.
    ComponentError(String),
}

impl ApproEqError {
    /// The text that [`ApproEqError::description`] gives.
    pub open spec fn description_spec(&self) -> Seq<char> {
        match self {
            ApproEqError::LengthMismatch => "length mismatch"@,
            ApproEqError::NonNumDifference => "non num difference"@,
            ApproEqError::DividedByZero => "divided by zero"@,
            ApproEqError::Overflow => "overflow"@,
            ApproEqError::ComponentError(cause) => cause@,
        }
    }

    /// A short description of the failure; for a failed part, the
    /// description of its cause.
    pub fn description(&self) -> (r: &str)
        ensures
            r@ == self.description_spec(),
    {
        match self {
            ApproEqError::LengthMismatch => "length mismatch",
            ApproEqError::NonNumDifference => "non num difference",
            ApproEqError::DividedByZero => "divided by zero",
            ApproEqError::Overflow => "overflow",
            ApproEqError::ComponentError(cause) => cause.as_str(),
        }
    }
}

/// The outcome of one error computation: a distance, the absence of any
/// distance (the values count as equal), or the reason why none exists.
pub type ApproEqResult<D> = Result<Option<D>, ApproEqError>;

} // verus!
