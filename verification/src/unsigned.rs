//! Unsigned integers: the distance is the larger value minus the smaller,
//! so that no subtraction goes below zero.

use vstd::prelude::*;
use crate::error::{ApproEqError, ApproEqResult};
use crate::traits::{
    AbsApproEq, AbsApproEqWithTol, AbsError, RelApproEqWithTol, RelError, Tolerance,
};

verus! {

/// The magnitude of the difference of two integers.
pub open spec fn abs_diff(a: int, b: int) -> int {
    if a > b {
        a - b
    } else {
        b - a
    }
}

/// The default tolerance of `u8` is zero: approximate equality is equality.
impl Tolerance for u8 {
    open spec fn tolerance_spec() -> u8 {
        0
    }

    fn tolerance() -> (r: u8) {
        0
    }
}

impl AbsError for u8 {
    open spec fn abs_error_pre(&self, expected: &u8) -> bool {
        true
    }

    open spec fn abs_error_spec(&self, expected: &u8) -> ApproEqResult<u8> {
        Ok(Some(abs_diff(*self as int, *expected as int) as u8))
    }

    fn abs_error(&self, expected: &u8) -> (r: ApproEqResult<u8>) {
        Ok(Some(if *self > *expected {
            *self - *expected
        } else {
            *expected - *self
        }))
    }
}

impl RelError for u8 {
    open spec fn rel_error_pre(&self, expected: &u8) -> bool {
        true
    }

    open spec fn rel_error_spec(&self, expected: &u8) -> ApproEqResult<u8> {
        if *expected == 0 {
            Err(ApproEqError::DividedByZero)
        } else {
            Ok(Some((abs_diff(*self as int, *expected as int) / (*expected as int)) as u8))
        }
    }

    fn rel_error(&self, expected: &u8) -> (r: ApproEqResult<u8>) {
        if *expected == 0 {
            Err(ApproEqError::DividedByZero)
        } else {
            Ok(Some((if *self > *expected {
                *self - *expected
            } else {
                *expected - *self
            }) / *expected))
        }
    }
}

/// The default tolerance of `u16` is zero: approximate equality is equality.
impl Tolerance for u16 {
    open spec fn tolerance_spec() -> u16 {
        0
    }

    fn tolerance() -> (r: u16) {
        0
    }
}

impl AbsError for u16 {
    open spec fn abs_error_pre(&self, expected: &u16) -> bool {
        true
    }

    open spec fn abs_error_spec(&self, expected: &u16) -> ApproEqResult<u16> {
        Ok(Some(abs_diff(*self as int, *expected as int) as u16))
    }

    fn abs_error(&self, expected: &u16) -> (r: ApproEqResult<u16>) {
        Ok(Some(if *self > *expected {
            *self - *expected
        } else {
            *expected - *self
        }))
    }
}

impl RelError for u16 {
    open spec fn rel_error_pre(&self, expected: &u16) -> bool {
        true
    }

    open spec fn rel_error_spec(&self, expected: &u16) -> ApproEqResult<u16> {
        if *expected == 0 {
            Err(ApproEqError::DividedByZero)
        } else {
            Ok(Some((abs_diff(*self as int, *expected as int) / (*expected as int)) as u16))
        }
    }

    fn rel_error(&self, expected: &u16) -> (r: ApproEqResult<u16>) {
        if *expected == 0 {
            Err(ApproEqError::DividedByZero)
        } else {
            Ok(Some((if *self > *expected {
                *self - *expected
            } else {
                *expected - *self
            }) / *expected))
        }
    }
}

/// The default tolerance of `u32` is zero: approximate equality is equality.
impl Tolerance for u32 {
    open spec fn tolerance_spec() -> u32 {
        0
    }

    fn tolerance() -> (r: u32) {
        0
    }
}

impl AbsError for u32 {
    open spec fn abs_error_pre(&self, expected: &u32) -> bool {
        true
    }

    open spec fn abs_error_spec(&self, expected: &u32) -> ApproEqResult<u32> {
        Ok(Some(abs_diff(*self as int, *expected as int) as u32))
    }

    fn abs_error(&self, expected: &u32) -> (r: ApproEqResult<u32>) {
        Ok(Some(if *self > *expected {
            *self - *expected
        } else {
            *expected - *self
        }))
    }
}

impl RelError for u32 {
    open spec fn rel_error_pre(&self, expected: &u32) -> bool {
        true
    }

    open spec fn rel_error_spec(&self, expected: &u32) -> ApproEqResult<u32> {
        if *expected == 0 {
            Err(ApproEqError::DividedByZero)
        } else {
            Ok(Some((abs_diff(*self as int, *expected as int) / (*expected as int)) as u32))
        }
    }

    fn rel_error(&self, expected: &u32) -> (r: ApproEqResult<u32>) {
        if *expected == 0 {
            Err(ApproEqError::DividedByZero)
        } else {
            Ok(Some((if *self > *expected {
                *self - *expected
            } else {
                *expected - *self
            }) / *expected))
        }
    }
}

/// The default tolerance of `u64` is zero: approximate equality is equality.
impl Tolerance for u64 {
    open spec fn tolerance_spec() -> u64 {
        0
    }

    fn tolerance() -> (r: u64) {
        0
    }
}

impl AbsError for u64 {
    open spec fn abs_error_pre(&self, expected: &u64) -> bool {
        true
    }

    open spec fn abs_error_spec(&self, expected: &u64) -> ApproEqResult<u64> {
        Ok(Some(abs_diff(*self as int, *expected as int) as u64))
    }

    fn abs_error(&self, expected: &u64) -> (r: ApproEqResult<u64>) {
        Ok(Some(if *self > *expected {
            *self - *expected
        } else {
            *expected - *self
        }))
    }
}

impl RelError for u64 {
    open spec fn rel_error_pre(&self, expected: &u64) -> bool {
        true
    }

    open spec fn rel_error_spec(&self, expected: &u64) -> ApproEqResult<u64> {
        if *expected == 0 {
            Err(ApproEqError::DividedByZero)
        } else {
            Ok(Some((abs_diff(*self as int, *expected as int) / (*expected as int)) as u64))
        }
    }

    fn rel_error(&self, expected: &u64) -> (r: ApproEqResult<u64>) {
        if *expected == 0 {
            Err(ApproEqError::DividedByZero)
        } else {
            Ok(Some((if *self > *expected {
                *self - *expected
            } else {
                *expected - *self
            }) / *expected))
        }
    }
}

/// The default tolerance of `u128` is zero: approximate equality is equality.
impl Tolerance for u128 {
    open spec fn tolerance_spec() -> u128 {
        0
    }

    fn tolerance() -> (r: u128) {
        0
    }
}

impl AbsError for u128 {
    open spec fn abs_error_pre(&self, expected: &u128) -> bool {
        true
    }

    open spec fn abs_error_spec(&self, expected: &u128) -> ApproEqResult<u128> {
        Ok(Some(abs_diff(*self as int, *expected as int) as u128))
    }

    fn abs_error(&self, expected: &u128) -> (r: ApproEqResult<u128>) {
        Ok(Some(if *self > *expected {
            *self - *expected
        } else {
            *expected - *self
        }))
    }
}

impl RelError for u128 {
    open spec fn rel_error_pre(&self, expected: &u128) -> bool {
        true
    }

    open spec fn rel_error_spec(&self, expected: &u128) -> ApproEqResult<u128> {
        if *expected == 0 {
            Err(ApproEqError::DividedByZero)
        } else {
            Ok(Some((abs_diff(*self as int, *expected as int) / (*expected as int)) as u128))
        }
    }

    fn rel_error(&self, expected: &u128) -> (r: ApproEqResult<u128>) {
        if *expected == 0 {
            Err(ApproEqError::DividedByZero)
        } else {
            Ok(Some((if *self > *expected {
                *self - *expected
            } else {
                *expected - *self
            }) / *expected))
        }
    }
}

/// For `u8`: the distance of a value from itself is zero; two values are
/// approximately equal under a tolerance exactly when they differ by at
/// most that tolerance, the bound included, and under the default
/// tolerance exactly when they are equal; and no value is approximately
/// equal, relatively, to an expected zero.
pub proof fn law_u8_distance(a: u8, b: u8, tol: u8)
    ensures
        a.abs_error_pre(&a) && a.abs_error_spec(&a) == Ok::<Option<u8>, ApproEqError>(Some(0)),
        a.abs_appro_eq_pre(&a) && a.abs_appro_eq_decided(&a) && a.abs_appro_eq_spec(&a),
        a.abs_with_tol_pre(&b) && a.abs_with_tol_decided(&b),
        a.abs_with_tol_spec(&b, &tol) == (abs_diff(a as int, b as int) <= tol),
        a.abs_appro_eq_spec(&b) == (a == b),
        a.rel_with_tol_pre(&0) && a.rel_with_tol_decided(&0) && !a.rel_with_tol_spec(&0, &tol),
{
}

/// For `u16`: the distance of a value from itself is zero; two values are
/// approximately equal under a tolerance exactly when they differ by at
/// most that tolerance, the bound included, and under the default
/// tolerance exactly when they are equal; and no value is approximately
/// equal, relatively, to an expected zero.
pub proof fn law_u16_distance(a: u16, b: u16, tol: u16)
    ensures
        a.abs_error_pre(&a) && a.abs_error_spec(&a) == Ok::<Option<u16>, ApproEqError>(Some(0)),
        a.abs_appro_eq_pre(&a) && a.abs_appro_eq_decided(&a) && a.abs_appro_eq_spec(&a),
        a.abs_with_tol_pre(&b) && a.abs_with_tol_decided(&b),
        a.abs_with_tol_spec(&b, &tol) == (abs_diff(a as int, b as int) <= tol),
        a.abs_appro_eq_spec(&b) == (a == b),
        a.rel_with_tol_pre(&0) && a.rel_with_tol_decided(&0) && !a.rel_with_tol_spec(&0, &tol),
{
}

/// For `u32`: the distance of a value from itself is zero; two values are
/// approximately equal under a tolerance exactly when they differ by at
/// most that tolerance, the bound included, and under the default
/// tolerance exactly when they are equal; and no value is approximately
/// equal, relatively, to an expected zero.
pub proof fn law_u32_distance(a: u32, b: u32, tol: u32)
    ensures
        a.abs_error_pre(&a) && a.abs_error_spec(&a) == Ok::<Option<u32>, ApproEqError>(Some(0)),
        a.abs_appro_eq_pre(&a) && a.abs_appro_eq_decided(&a) && a.abs_appro_eq_spec(&a),
        a.abs_with_tol_pre(&b) && a.abs_with_tol_decided(&b),
        a.abs_with_tol_spec(&b, &tol) == (abs_diff(a as int, b as int) <= tol),
        a.abs_appro_eq_spec(&b) == (a == b),
        a.rel_with_tol_pre(&0) && a.rel_with_tol_decided(&0) && !a.rel_with_tol_spec(&0, &tol),
{
}

/// For `u64`: the distance of a value from itself is zero; two values are
/// approximately equal under a tolerance exactly when they differ by at
/// most that tolerance, the bound included, and under the default
/// tolerance exactly when they are equal; and no value is approximately
/// equal, relatively, to an expected zero.
pub proof fn law_u64_distance(a: u64, b: u64, tol: u64)
    ensures
        a.abs_error_pre(&a) && a.abs_error_spec(&a) == Ok::<Option<u64>, ApproEqError>(Some(0)),
        a.abs_appro_eq_pre(&a) && a.abs_appro_eq_decided(&a) && a.abs_appro_eq_spec(&a),
        a.abs_with_tol_pre(&b) && a.abs_with_tol_decided(&b),
        a.abs_with_tol_spec(&b, &tol) == (abs_diff(a as int, b as int) <= tol),
        a.abs_appro_eq_spec(&b) == (a == b),
        a.rel_with_tol_pre(&0) && a.rel_with_tol_decided(&0) && !a.rel_with_tol_spec(&0, &tol),
{
}

/// For `u128`: the distance of a value from itself is zero; two values are
/// approximately equal under a tolerance exactly when they differ by at
/// most that tolerance, the bound included, and under the default
/// tolerance exactly when they are equal; and no value is approximately
/// equal, relatively, to an expected zero.
pub proof fn law_u128_distance(a: u128, b: u128, tol: u128)
    ensures
        a.abs_error_pre(&a) && a.abs_error_spec(&a) == Ok::<Option<u128>, ApproEqError>(Some(0)),
        a.abs_appro_eq_pre(&a) && a.abs_appro_eq_decided(&a) && a.abs_appro_eq_spec(&a),
        a.abs_with_tol_pre(&b) && a.abs_with_tol_decided(&b),
        a.abs_with_tol_spec(&b, &tol) == (abs_diff(a as int, b as int) <= tol),
        a.abs_appro_eq_spec(&b) == (a == b),
        a.rel_with_tol_pre(&0) && a.rel_with_tol_decided(&0) && !a.rel_with_tol_spec(&0, &tol),
{
}

} // verus!
