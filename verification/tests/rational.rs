use appro_eq::rational::Rational;
use appro_eq::{
    AbsApproEq, AbsApproEqWithTol, AbsError, ApproEqError, RelApproEq, RelApproEqWithTol,
    RelError, Tolerance,
};
use num_rational::Ratio;

fn ratio(numer: i64, denom: i64) -> Rational {
    Rational::new(numer, denom).unwrap()
}

fn parts(value: &Rational) -> (i64, i64) {
    (value.numer, value.denom)
}

#[test]
fn a_fraction_is_kept_in_lowest_terms() {
    assert_eq!(parts(&ratio(2, 4)), (1, 2));
    assert_eq!(parts(&ratio(3, -6)), (-1, 2));
    assert_eq!(parts(&ratio(-3, -6)), (1, 2));
    assert_eq!(parts(&ratio(0, 17)), (0, 1));
    assert_eq!(parts(&ratio(5, 5)), (1, 1));
    assert_eq!(parts(&ratio(1001, 1000)), (1001, 1000));
    let same = Ratio::new(462i64, -1071);
    assert_eq!(parts(&ratio(462, -1071)), (*same.numer(), *same.denom()));
}

#[test]
fn a_fraction_needs_a_denominator_and_parts_that_can_be_negated() {
    assert!(Rational::new(1, 0).is_none());
    assert!(Rational::new(i64::MIN, 1).is_none());
    assert!(Rational::new(1, i64::MIN).is_none());
    assert!(Rational::new(i64::MAX, i64::MAX - 1).is_some());
    assert!(Rational::new(i64::MIN + 1, -1).is_some());
}

#[test]
fn fractions_are_ordered_exactly() {
    assert!(ratio(1, 3) < ratio(1, 2));
    assert!(ratio(-1, 2) < ratio(-1, 3));
    assert!(ratio(2, 4) == ratio(1, 2));
    assert!(ratio(2, 4) <= ratio(1, 2));
    assert!(ratio(1002, 1001) < ratio(1001, 1000));
    assert!(ratio(i64::MAX, i64::MAX - 1) < ratio(i64::MAX - 1, i64::MAX - 2));
    assert!(ratio(i64::MAX - 1, i64::MAX) < ratio(i64::MAX, i64::MAX - 1));
    let raw = Rational { numer: 2, denom: 4 };
    assert!(raw == ratio(1, 2));
    let broken = Rational { numer: 1, denom: 0 };
    assert!(broken.partial_cmp(&ratio(1, 2)).is_none());
    assert!(!(broken == broken));
}

#[test]
fn the_distance_of_fractions_is_exact() {
    let d = ratio(1001, 1000).abs_error(&ratio(1002, 1001)).unwrap().unwrap();
    assert_eq!(parts(&d), (1, 1_001_000));
    let d = ratio(1002, 1001).abs_error(&ratio(1001, 1000)).unwrap().unwrap();
    assert_eq!(parts(&d), (1, 1_001_000));
    let d = ratio(1, 2).abs_error(&ratio(-1, 3)).unwrap().unwrap();
    assert_eq!(parts(&d), (5, 6));
    let d = ratio(7, 9).abs_error(&ratio(7, 9)).unwrap().unwrap();
    assert_eq!(parts(&d), (0, 1));
    let d = ratio(1, 4).abs_error(&ratio(3, 4)).unwrap().unwrap();
    assert_eq!(parts(&d), (1, 2));
}

#[test]
fn the_relative_error_of_fractions_is_exact() {
    let q = ratio(1, 2).rel_error(&ratio(1, 3)).unwrap().unwrap();
    assert_eq!(parts(&q), (1, 2));
    let q = ratio(1, 2).rel_error(&ratio(-1, 3)).unwrap().unwrap();
    assert_eq!(parts(&q), (-5, 2));
    let q = ratio(1001, 1000).rel_error(&ratio(1002, 1001)).unwrap().unwrap();
    assert_eq!(parts(&q), (1, 1_002_000));
    let q = ratio(3, 7).rel_error(&ratio(3, 7)).unwrap().unwrap();
    assert_eq!(parts(&q), (0, 1));
}

#[test]
fn a_relative_error_against_zero_is_divided_by_zero() {
    assert!(matches!(ratio(1, 2).rel_error(&ratio(0, 5)), Err(ApproEqError::DividedByZero)));
    assert!(matches!(ratio(0, 1).rel_error(&ratio(0, 1)), Err(ApproEqError::DividedByZero)));
    assert!(!ratio(1, 2).rel_appro_eq(&ratio(0, 1)));
    assert!(!ratio(1, 2).rel_appro_eq_with_tol(&ratio(0, 1), &ratio(i64::MAX, 1)));
}

#[test]
fn a_distance_that_does_not_fit_is_an_overflow() {
    let big = ratio(i64::MAX, 1);
    let small = ratio(-i64::MAX, 1);
    assert!(matches!(big.abs_error(&small), Err(ApproEqError::Overflow)));
    assert!(matches!(small.abs_error(&big), Err(ApproEqError::Overflow)));
    assert!(!big.abs_appro_eq_with_tol(&small, &big));
    let a = ratio(1, i64::MAX);
    let b = ratio(1, i64::MAX - 1);
    assert!(matches!(a.abs_error(&b), Err(ApproEqError::Overflow)));
    assert!(matches!(a.rel_error(&b), Err(ApproEqError::Overflow)));
    let tiny = ratio(1, i64::MAX);
    assert!(matches!(ratio(i64::MAX, 1).rel_error(&tiny), Err(ApproEqError::Overflow)));
}

#[test]
fn the_default_tolerance_of_fractions_is_zero() {
    assert_eq!(parts(&<Rational as Tolerance>::tolerance()), (0, 1));
}

#[test]
fn compare_with_ratio_mindiff() {
    let (a, b, tol) = (ratio(1001, 1000), ratio(1002, 1001), ratio(1, 10000));
    assert!(a.abs_appro_eq_with_tol(&b, &tol));
    assert!(a.rel_appro_eq_with_tol(&b, &tol));
    assert!(!a.abs_appro_ne_with_tol(&b, &tol));
}

#[test]
fn compare_with_ratio_equal() {
    let (a, b) = (ratio(1, 1000), ratio(1, 1000));
    assert!(a.abs_appro_eq(&b));
    assert!(a.rel_appro_eq(&b));
}

#[test]
fn bad_compare_with_ratio() {
    let (a, b, tol) = (ratio(1, 1000), ratio(1, 1001), ratio(1, 1_000_000_000));
    assert!(!a.abs_appro_eq_with_tol(&b, &tol));
    assert!(!a.rel_appro_eq_with_tol(&b, &tol));
    assert!(!a.abs_appro_eq(&b));
}

#[test]
fn the_tolerance_of_fractions_includes_its_bound() {
    let (a, b) = (ratio(1, 2), ratio(1, 3));
    assert!(a.abs_appro_eq_with_tol(&b, &ratio(1, 6)));
    assert!(a.abs_appro_eq_with_tol(&b, &ratio(2, 12)));
    assert!(!a.abs_appro_eq_with_tol(&b, &ratio(1, 7)));
}
