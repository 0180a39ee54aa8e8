use appro_eq::{AbsApproEq, AbsApproEqWithTol, AbsError, ApproEqError, RelApproEq, RelError};
use std::rc::Rc;
use std::sync::Arc;

#[test]
fn compare_with_option_both_some() {
    assert!(Some(1u32).abs_appro_eq(&Some(1u32)));
    assert!(Some(1u32).rel_appro_eq(&Some(1u32)));
    assert!(matches!(Some(4u32).abs_error(&Some(1u32)), Ok(Some(3))));
    assert!(matches!(Some(4u32).rel_error(&Some(1u32)), Ok(Some(3))));
}

#[test]
fn compare_with_option_both_none() {
    let a: Option<u32> = None;
    let b: Option<u32> = None;
    assert!(a.abs_appro_eq(&b));
    assert!(a.rel_appro_eq(&b));
    assert!(matches!(a.abs_error(&b), Ok(None)));
    assert!(matches!(a.rel_error(&b), Ok(None)));
}

#[test]
fn bad_compare_with_option_both_some() {
    assert!(!Some(2u32).abs_appro_eq(&Some(1u32)));
    assert!(!Some(2u32).rel_appro_eq(&Some(1u32)));
}

#[test]
fn bad_compare_with_option_left_some() {
    let none: Option<u32> = None;
    assert!(!Some(2u32).abs_appro_eq(&none));
    assert!(!Some(2u32).rel_appro_eq(&none));
    assert!(matches!(Some(2u32).abs_error(&none), Err(ApproEqError::NonNumDifference)));
    assert!(matches!(Some(2u32).rel_error(&none), Err(ApproEqError::NonNumDifference)));
    assert!(!Some(0u32).abs_appro_eq_with_tol(&none, &u32::MAX));
}

#[test]
fn bad_compare_with_option_right_some() {
    let none: Option<u32> = None;
    assert!(!none.abs_appro_eq(&Some(1u32)));
    assert!(!none.rel_appro_eq(&Some(1u32)));
    assert!(matches!(none.abs_error(&Some(1u32)), Err(ApproEqError::NonNumDifference)));
}

#[test]
fn compare_with_rc() {
    assert!(Rc::new(1u64).abs_appro_eq(&Rc::new(1u64)));
    assert!(Rc::new(1u64).rel_appro_eq(&Rc::new(1u64)));
    assert!(matches!(Rc::new(1u64).abs_error(&Rc::new(5u64)), Ok(Some(4))));
    assert!(matches!(Rc::new(9u64).rel_error(&Rc::new(2u64)), Ok(Some(3))));
}

#[test]
fn bad_compare_with_rc() {
    assert!(!Rc::new(1u64).abs_appro_eq(&Rc::new(2u64)));
    assert!(!Rc::new(1u64).rel_appro_eq(&Rc::new(0u64)));
}

#[test]
fn compare_with_arc() {
    assert!(Arc::new(1i16).abs_appro_eq(&Arc::new(1i16)));
    assert!(Arc::new(1i16).rel_appro_eq(&Arc::new(1i16)));
    assert!(matches!(Arc::new(1i16).abs_error(&Arc::new(-5i16)), Ok(Some(6))));
    assert!(matches!(Arc::new(9i16).rel_error(&Arc::new(-2i16)), Ok(Some(-5))));
}

#[test]
fn bad_compare_with_arc() {
    assert!(!Arc::new(1i16).abs_appro_eq(&Arc::new(2i16)));
    assert!(!Arc::new(1i16).rel_appro_eq(&Arc::new(0i16)));
}

#[test]
fn a_pointer_compares_as_its_value_does() {
    for (a, b, tol) in [(1u8, 1u8, 0u8), (1, 3, 1), (1, 3, 2), (200, 0, 199), (200, 0, 200)] {
        let direct = a.abs_appro_eq_with_tol(&b, &tol);
        assert_eq!(Rc::new(a).abs_appro_eq_with_tol(&Rc::new(b), &tol), direct);
        assert_eq!(Arc::new(a).abs_appro_eq_with_tol(&Arc::new(b), &tol), direct);
        assert_eq!(Some(a).abs_appro_eq_with_tol(&Some(b), &tol), direct);
        assert_eq!((&a).abs_appro_eq_with_tol(&&b, &tol), direct);
    }
}

#[test]
fn compare_with_weak() {
    let (a, b) = (Rc::new(1u32), Rc::new(1u32));
    let (wa, wb) = (Rc::downgrade(&a), Rc::downgrade(&b));
    assert!(wa.upgrade().abs_appro_eq(&wb.upgrade()));
    assert!(wa.upgrade().rel_appro_eq(&wb.upgrade()));
}

#[test]
fn bad_compare_with_weak() {
    let (a, b) = (Rc::new(1u32), Rc::new(2u32));
    let (wa, wb) = (Rc::downgrade(&a), Rc::downgrade(&b));
    assert!(!wa.upgrade().abs_appro_eq(&wb.upgrade()));
    drop(b);
    assert!(matches!(
        wa.upgrade().abs_error(&wb.upgrade()),
        Err(ApproEqError::NonNumDifference)
    ));
    drop(a);
    assert!(matches!(wa.upgrade().abs_error(&wb.upgrade()), Ok(None)));
}

#[test]
fn wrappers_nest() {
    let a = vec![Some(Rc::new(3u8)), None];
    let b = vec![Some(Rc::new(5u8)), None];
    assert!(matches!(a.abs_error(&b), Ok(Some(2))));
    let c = vec![Some(Rc::new(5u8)), Some(Rc::new(0u8))];
    assert!(matches!(a.abs_error(&c), Err(ApproEqError::NonNumDifference)));
}
