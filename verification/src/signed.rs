//! Signed integers: exact distances, and quotients rounded toward zero.
//!
//! The distance has the type of the operands, so two values can be compared
//! when the magnitude of their difference fits in that type.

use vstd::prelude::*;
use crate::error::{ApproEqError, ApproEqResult};
use crate::traits::{
    AbsApproEq, AbsApproEqWithTol, AbsError, RelApproEqWithTol, RelError, Tolerance,
};
use crate::unsigned::abs_diff;

verus! {

/// The quotient of a distance `d >= 0` by `e != 0`, rounded toward zero.
pub open spec fn quot_toward_zero(d: int, e: int) -> int {
    if e > 0 {
        d / e
    } else {
        -(d / (-e))
    }
}

/// The default tolerance of `i8` is zero: approximate equality is equality.
impl Tolerance for i8 {
    open spec fn tolerance_spec() -> i8 {
        0
    }

    fn tolerance() -> (r: i8) {
        0
    }
}

impl AbsError for i8 {
    open spec fn abs_error_pre(&self, expected: &i8) -> bool {
        abs_diff(*self as int, *expected as int) <= i8::MAX
    }

    open spec fn abs_error_spec(&self, expected: &i8) -> ApproEqResult<i8> {
        Ok(Some(abs_diff(*self as int, *expected as int) as i8))
    }

    fn abs_error(&self, expected: &i8) -> (r: ApproEqResult<i8>) {
        let d: i8 = *self - *expected;
        Ok(Some(if d < 0 {
            -d
        } else {
            d
        }))
    }
}

impl RelError for i8 {
    open spec fn rel_error_pre(&self, expected: &i8) -> bool {
        abs_diff(*self as int, *expected as int) <= i8::MAX
    }

    open spec fn rel_error_spec(&self, expected: &i8) -> ApproEqResult<i8> {
        if *expected == 0 {
            Err(ApproEqError::DividedByZero)
        } else {
            Ok(
                Some(
                    quot_toward_zero(abs_diff(*self as int, *expected as int), *expected as int) as i8,
                ),
            )
        }
    }

    fn rel_error(&self, expected: &i8) -> (r: ApproEqResult<i8>) {
        if *expected == 0 {
            Err(ApproEqError::DividedByZero)
        } else {
            let d: i8 = *self - *expected;
            let d: i8 = if d < 0 {
                -d
            } else {
                d
            };
            // The divisor is not zero and the dividend is not negative, so
            // the quotient exists.
            Ok(d.checked_div(*expected))
        }
    }
}

/// The default tolerance of `i16` is zero: approximate equality is equality.
impl Tolerance for i16 {
    open spec fn tolerance_spec() -> i16 {
        0
    }

    fn tolerance() -> (r: i16) {
        0
    }
}

impl AbsError for i16 {
    open spec fn abs_error_pre(&self, expected: &i16) -> bool {
        abs_diff(*self as int, *expected as int) <= i16::MAX
    }

    open spec fn abs_error_spec(&self, expected: &i16) -> ApproEqResult<i16> {
        Ok(Some(abs_diff(*self as int, *expected as int) as i16))
    }

    fn abs_error(&self, expected: &i16) -> (r: ApproEqResult<i16>) {
        let d: i16 = *self - *expected;
        Ok(Some(if d < 0 {
            -d
        } else {
            d
        }))
    }
}

impl RelError for i16 {
    open spec fn rel_error_pre(&self, expected: &i16) -> bool {
        abs_diff(*self as int, *expected as int) <= i16::MAX
    }

    open spec fn rel_error_spec(&self, expected: &i16) -> ApproEqResult<i16> {
        if *expected == 0 {
            Err(ApproEqError::DividedByZero)
        } else {
            Ok(
                Some(
                    quot_toward_zero(abs_diff(*self as int, *expected as int), *expected as int) as i16,
                ),
            )
        }
    }

    fn rel_error(&self, expected: &i16) -> (r: ApproEqResult<i16>) {
        if *expected == 0 {
            Err(ApproEqError::DividedByZero)
        } else {
            let d: i16 = *self - *expected;
            let d: i16 = if d < 0 {
                -d
            } else {
                d
            };
            // The divisor is not zero and the dividend is not negative, so
            // the quotient exists.
            Ok(d.checked_div(*expected))
        }
    }
}

/// The default tolerance of `i32` is zero: approximate equality is equality.
impl Tolerance for i32 {
    open spec fn tolerance_spec() -> i32 {
        0
    }

    fn tolerance() -> (r: i32) {
        0
    }
}

impl AbsError for i32 {
    open spec fn abs_error_pre(&self, expected: &i32) -> bool {
        abs_diff(*self as int, *expected as int) <= i32::MAX
    }

    open spec fn abs_error_spec(&self, expected: &i32) -> ApproEqResult<i32> {
        Ok(Some(abs_diff(*self as int, *expected as int) as i32))
    }

    fn abs_error(&self, expected: &i32) -> (r: ApproEqResult<i32>) {
        let d: i32 = *self - *expected;
        Ok(Some(if d < 0 {
            -d
        } else {
            d
        }))
    }
}

impl RelError for i32 {
    open spec fn rel_error_pre(&self, expected: &i32) -> bool {
        abs_diff(*self as int, *expected as int) <= i32::MAX
    }

    open spec fn rel_error_spec(&self, expected: &i32) -> ApproEqResult<i32> {
        if *expected == 0 {
            Err(ApproEqError::DividedByZero)
        } else {
            Ok(
                Some(
                    quot_toward_zero(abs_diff(*self as int, *expected as int), *expected as int) as i32,
                ),
            )
        }
    }

    fn rel_error(&self, expected: &i32) -> (r: ApproEqResult<i32>) {
        if *expected == 0 {
            Err(ApproEqError::DividedByZero)
        } else {
            let d: i32 = *self - *expected;
            let d: i32 = if d < 0 {
                -d
            } else {
                d
            };
            // The divisor is not zero and the dividend is not negative, so
            // the quotient exists.
            Ok(d.checked_div(*expected))
        }
    }
}

/// The default tolerance of `i64` is zero: approximate equality is equality.
impl Tolerance for i64 {
    open spec fn tolerance_spec() -> i64 {
        0
    }

    fn tolerance() -> (r: i64) {
        0
    }
}

impl AbsError for i64 {
    open spec fn abs_error_pre(&self, expected: &i64) -> bool {
        abs_diff(*self as int, *expected as int) <= i64::MAX
    }

    open spec fn abs_error_spec(&self, expected: &i64) -> ApproEqResult<i64> {
        Ok(Some(abs_diff(*self as int, *expected as int) as i64))
    }

    fn abs_error(&self, expected: &i64) -> (r: ApproEqResult<i64>) {
        let d: i64 = *self - *expected;
        Ok(Some(if d < 0 {
            -d
        } else {
            d
        }))
    }
}

impl RelError for i64 {
    open spec fn rel_error_pre(&self, expected: &i64) -> bool {
        abs_diff(*self as int, *expected as int) <= i64::MAX
    }

    open spec fn rel_error_spec(&self, expected: &i64) -> ApproEqResult<i64> {
        if *expected == 0 {
            Err(ApproEqError::DividedByZero)
        } else {
            Ok(
                Some(
                    quot_toward_zero(abs_diff(*self as int, *expected as int), *expected as int) as i64,
                ),
            )
        }
    }

    fn rel_error(&self, expected: &i64) -> (r: ApproEqResult<i64>) {
        if *expected == 0 {
            Err(ApproEqError::DividedByZero)
        } else {
            let d: i64 = *self - *expected;
            let d: i64 = if d < 0 {
                -d
            } else {
                d
            };
            // The divisor is not zero and the dividend is not negative, so
            // the quotient exists.
            Ok(d.checked_div(*expected))
        }
    }
}

/// The default tolerance of `i128` is zero: approximate equality is equality.
impl Tolerance for i128 {
    open spec fn tolerance_spec() -> i128 {
        0
    }

    fn tolerance() -> (r: i128) {
        0
    }
}

impl AbsError for i128 {
    open spec fn abs_error_pre(&self, expected: &i128) -> bool {
        abs_diff(*self as int, *expected as int) <= i128::MAX
    }

    open spec fn abs_error_spec(&self, expected: &i128) -> ApproEqResult<i128> {
        Ok(Some(abs_diff(*self as int, *expected as int) as i128))
    }

    fn abs_error(&self, expected: &i128) -> (r: ApproEqResult<i128>) {
        let d: i128 = *self - *expected;
        Ok(Some(if d < 0 {
            -d
        } else {
            d
        }))
    }
}

impl RelError for i128 {
    open spec fn rel_error_pre(&self, expected: &i128) -> bool {
        abs_diff(*self as int, *expected as int) <= i128::MAX
    }

    open spec fn rel_error_spec(&self, expected: &i128) -> ApproEqResult<i128> {
        if *expected == 0 {
            Err(ApproEqError::DividedByZero)
        } else {
            Ok(
                Some(
                    quot_toward_zero(abs_diff(*self as int, *expected as int), *expected as int) as i128,
                ),
            )
        }
    }

    fn rel_error(&self, expected: &i128) -> (r: ApproEqResult<i128>) {
        if *expected == 0 {
            Err(ApproEqError::DividedByZero)
        } else {
            let d: i128 = *self - *expected;
            let d: i128 = if d < 0 {
                -d
            } else {
                d
            };
            // The divisor is not zero and the dividend is not negative, so
            // the quotient exists.
            Ok(d.checked_div(*expected))
        }
    }
}

/// For `i8`: the distance of a value from itself is zero; two values whose
/// distance fits in `i8` are approximately equal under a tolerance exactly
/// when they differ by at most that tolerance, the bound included, and
/// under the default tolerance exactly when they are equal; and no value
/// is approximately equal, relatively, to an expected zero.
pub proof fn law_i8_distance(a: i8, b: i8, tol: i8)
    ensures
        a.abs_error_pre(&a) && a.abs_error_spec(&a) == Ok::<Option<i8>, ApproEqError>(Some(0)),
        a.abs_appro_eq_pre(&a) && a.abs_appro_eq_decided(&a) && a.abs_appro_eq_spec(&a),
        a.abs_with_tol_decided(&b),
        a.abs_with_tol_pre(&b) ==> a.abs_with_tol_spec(&b, &tol) == (abs_diff(a as int, b as int)
            <= tol),
        a.abs_with_tol_pre(&b) ==> a.abs_appro_eq_spec(&b) == (a == b),
        a.rel_with_tol_decided(&0) && !a.rel_with_tol_spec(&0, &tol),
{
}

/// For `i16`: the distance of a value from itself is zero; two values whose
/// distance fits in `i16` are approximately equal under a tolerance exactly
/// when they differ by at most that tolerance, the bound included, and
/// under the default tolerance exactly when they are equal; and no value
/// is approximately equal, relatively, to an expected zero.
pub proof fn law_i16_distance(a: i16, b: i16, tol: i16)
    ensures
        a.abs_error_pre(&a) && a.abs_error_spec(&a) == Ok::<Option<i16>, ApproEqError>(Some(0)),
        a.abs_appro_eq_pre(&a) && a.abs_appro_eq_decided(&a) && a.abs_appro_eq_spec(&a),
        a.abs_with_tol_decided(&b),
        a.abs_with_tol_pre(&b) ==> a.abs_with_tol_spec(&b, &tol) == (abs_diff(a as int, b as int)
            <= tol),
        a.abs_with_tol_pre(&b) ==> a.abs_appro_eq_spec(&b) == (a == b),
        a.rel_with_tol_decided(&0) && !a.rel_with_tol_spec(&0, &tol),
{
}

/// For `i32`: the distance of a value from itself is zero; two values whose
/// distance fits in `i32` are approximately equal under a tolerance exactly
/// when they differ by at most that tolerance, the bound included, and
/// under the default tolerance exactly when they are equal; and no value
/// is approximately equal, relatively, to an expected zero.
pub proof fn law_i32_distance(a: i32, b: i32, tol: i32)
    ensures
        a.abs_error_pre(&a) && a.abs_error_spec(&a) == Ok::<Option<i32>, ApproEqError>(Some(0)),
        a.abs_appro_eq_pre(&a) && a.abs_appro_eq_decided(&a) && a.abs_appro_eq_spec(&a),
        a.abs_with_tol_decided(&b),
        a.abs_with_tol_pre(&b) ==> a.abs_with_tol_spec(&b, &tol) == (abs_diff(a as int, b as int)
            <= tol),
        a.abs_with_tol_pre(&b) ==> a.abs_appro_eq_spec(&b) == (a == b),
        a.rel_with_tol_decided(&0) && !a.rel_with_tol_spec(&0, &tol),
{
}

/// For `i64`: the distance of a value from itself is zero; two values whose
/// distance fits in `i64` are approximately equal under a tolerance exactly
/// when they differ by at most that tolerance, the bound included, and
/// under the default tolerance exactly when they are equal; and no value
/// is approximately equal, relatively, to an expected zero.
pub proof fn law_i64_distance(a: i64, b: i64, tol: i64)
    ensures
        a.abs_error_pre(&a) && a.abs_error_spec(&a) == Ok::<Option<i64>, ApproEqError>(Some(0)),
        a.abs_appro_eq_pre(&a) && a.abs_appro_eq_decided(&a) && a.abs_appro_eq_spec(&a),
        a.abs_with_tol_decided(&b),
        a.abs_with_tol_pre(&b) ==> a.abs_with_tol_spec(&b, &tol) == (abs_diff(a as int, b as int)
            <= tol),
        a.abs_with_tol_pre(&b) ==> a.abs_appro_eq_spec(&b) == (a == b),
        a.rel_with_tol_decided(&0) && !a.rel_with_tol_spec(&0, &tol),
{
}

/// For `i128`: the distance of a value from itself is zero; two values whose
/// distance fits in `i128` are approximately equal under a tolerance exactly
/// when they differ by at most that tolerance, the bound included, and
/// under the default tolerance exactly when they are equal; and no value
/// is approximately equal, relatively, to an expected zero.
pub proof fn law_i128_distance(a: i128, b: i128, tol: i128)
    ensures
        a.abs_error_pre(&a) && a.abs_error_spec(&a) == Ok::<Option<i128>, ApproEqError>(Some(0)),
        a.abs_appro_eq_pre(&a) && a.abs_appro_eq_decided(&a) && a.abs_appro_eq_spec(&a),
        a.abs_with_tol_decided(&b),
        a.abs_with_tol_pre(&b) ==> a.abs_with_tol_spec(&b, &tol) == (abs_diff(a as int, b as int)
            <= tol),
        a.abs_with_tol_pre(&b) ==> a.abs_appro_eq_spec(&b) == (a == b),
        a.rel_with_tol_decided(&0) && !a.rel_with_tol_spec(&0, &tol),
{
}

} // verus!
