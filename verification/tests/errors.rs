use appro_eq::complex::{combine_parts, Parts};
use appro_eq::ApproEqError;

#[test]
fn every_failure_describes_itself() {
    assert_eq!(ApproEqError::LengthMismatch.description(), "length mismatch");
    assert_eq!(ApproEqError::NonNumDifference.description(), "non num difference");
    assert_eq!(ApproEqError::DividedByZero.description(), "divided by zero");
    assert_eq!(ApproEqError::Overflow.description(), "overflow");
    let cause = String::from("second time provided was later than self");
    assert_eq!(ApproEqError::ComponentError(cause.clone()).description(), cause);
}

#[test]
fn a_failure_prints_for_debugging() {
    assert_eq!(format!("{:?}", ApproEqError::DividedByZero), "DividedByZero");
}

#[test]
fn a_failed_part_settles_the_outcome() {
    let failed: Result<Option<u8>, ApproEqError> = Err(ApproEqError::DividedByZero);
    let other: Result<Option<u8>, ApproEqError> = Err(ApproEqError::Overflow);
    assert!(matches!(
        combine_parts(failed, Ok(Some(3))),
        Parts::Settled(Err(ApproEqError::DividedByZero))
    ));
    assert!(matches!(
        combine_parts(Ok(Some(3u8)), Err(ApproEqError::Overflow)),
        Parts::Settled(Err(ApproEqError::Overflow))
    ));
    assert!(matches!(
        combine_parts(Err(ApproEqError::NonNumDifference), other),
        Parts::Settled(Err(ApproEqError::NonNumDifference))
    ));
}

#[test]
fn a_part_without_distance_gives_way_to_the_other() {
    assert!(matches!(combine_parts(Ok(None), Ok(Some(3u8))), Parts::Settled(Ok(Some(3)))));
    assert!(matches!(combine_parts(Ok(Some(4u8)), Ok(None)), Parts::Settled(Ok(Some(4)))));
    let none: Result<Option<u8>, ApproEqError> = Ok(None);
    assert!(matches!(combine_parts(none, Ok(None)), Parts::Settled(Ok(None))));
}

#[test]
fn two_distances_are_left_to_be_combined() {
    assert!(matches!(combine_parts(Ok(Some(3u8)), Ok(Some(4u8))), Parts::Both(3, 4)));
}
