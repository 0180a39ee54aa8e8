use appro_eq::complex::{combine_parts, Parts};
use appro_eq::{
    AbsApproEq, AbsApproEqWithTol, AbsError, ApproEqError, RelApproEq, RelApproEqWithTol,
    RelError, Tolerance,
};
use std::rc::Rc;
use std::sync::Arc;

#[derive(Clone, Copy, Debug, PartialEq, PartialOrd)]
struct F32(f32);

#[derive(Clone, Copy, Debug, PartialEq, PartialOrd)]
struct F64(f64);

impl Tolerance for F32 {
    fn tolerance() -> F32 {
        F32(1e-6)
    }
}

impl Tolerance for F64 {
    fn tolerance() -> F64 {
        F64(1e-11)
    }
}

impl AbsError for F32 {
    fn abs_error(&self, expected: &F32) -> Result<Option<F32>, ApproEqError> {
        Ok(Some(F32((self.0 - expected.0).abs())))
    }
}

impl RelError for F32 {
    fn rel_error(&self, expected: &F32) -> Result<Option<F32>, ApproEqError> {
        if expected.0 == 0.0 {
            Err(ApproEqError::DividedByZero)
        } else {
            Ok(Some(F32((self.0 - expected.0).abs() / expected.0)))
        }
    }
}

impl AbsError for F64 {
    fn abs_error(&self, expected: &F64) -> Result<Option<F64>, ApproEqError> {
        Ok(Some(F64((self.0 - expected.0).abs())))
    }
}

impl RelError for F64 {
    fn rel_error(&self, expected: &F64) -> Result<Option<F64>, ApproEqError> {
        if expected.0 == 0.0 {
            Err(ApproEqError::DividedByZero)
        } else {
            Ok(Some(F64((self.0 - expected.0).abs() / expected.0)))
        }
    }
}

impl AbsError<F64, F32> for F32 {
    fn abs_error(&self, expected: &F64) -> Result<Option<F32>, ApproEqError> {
        Ok(Some(F32((f64::from(self.0) - expected.0).abs() as f32)))
    }
}

impl RelError<F64, F32> for F32 {
    fn rel_error(&self, expected: &F64) -> Result<Option<F32>, ApproEqError> {
        if expected.0 == 0.0 {
            Err(ApproEqError::DividedByZero)
        } else {
            Ok(Some(F32(((f64::from(self.0) - expected.0).abs() / expected.0) as f32)))
        }
    }
}

impl AbsError<F32, F32> for F64 {
    fn abs_error(&self, expected: &F32) -> Result<Option<F32>, ApproEqError> {
        Ok(Some(F32((self.0 - f64::from(expected.0)).abs() as f32)))
    }
}

impl RelError<F32, F32> for F64 {
    fn rel_error(&self, expected: &F32) -> Result<Option<F32>, ApproEqError> {
        if expected.0 == 0.0 {
            Err(ApproEqError::DividedByZero)
        } else {
            let wide = f64::from(expected.0);
            Ok(Some(F32(((self.0 - wide).abs() / wide) as f32)))
        }
    }
}

fn all64(values: &[f64]) -> Vec<F64> {
    values.iter().map(|v| F64(*v)).collect()
}

fn all32(values: &[f32]) -> Vec<F32> {
    values.iter().map(|v| F32(*v)).collect()
}

#[test]
fn it_should_not_panic_if_values_are_appro_equal() {
    assert!(F32(8.0).abs_appro_eq(&F32(8.0 + 1e-7)));
    assert!(F32(8.0).rel_appro_eq(&F32(8.0 + 1e-7)));
}

#[test]
fn it_should_not_panic_if_values_are_appro_equal_f64() {
    assert!(F64(1e-12 + 1e-25).abs_appro_eq(&F64(1e-12)));
    assert!(F64(1e-12 + 1e-25).rel_appro_eq(&F64(1e-12)));
    assert!(F64(0.0).abs_appro_eq(&F64(1e-12)));
}

#[test]
fn compare_with_explicit_eps() {
    assert!(F64(3.0).abs_appro_eq_with_tol(&F64(4.0), &F64(2.0)));
    assert!(F64(3.0).rel_appro_eq_with_tol(&F64(4.0), &F64(2.0)));
    assert!(F64(1.0).abs_appro_eq_with_tol(&F64(1.5), &F64(0.6)));
}

#[test]
fn it_should_panic_if_values_are_not_appro_equal() {
    assert!(!F32(8.0).abs_appro_eq(&F32(8.0 - 1e-5)));
    assert!(!F32(8.0).rel_appro_eq(&F32(8.0 - 1e-5)));
    assert!(!F64(1.0).abs_appro_eq(&F64(2.0)));
}

#[test]
fn bad_compare_with_explicit_eps() {
    assert!(!F64(3.0).abs_appro_eq_with_tol(&F64(4.0), &F64(1e-3)));
    assert!(!F64(3.0).rel_appro_eq_with_tol(&F64(4.0), &F64(1e-3)));
    assert!(F64(3.0).abs_appro_ne_with_tol(&F64(4.0), &F64(1e-3)));
}

#[test]
fn the_tolerance_includes_its_bound() {
    assert!(F64(3.0).abs_appro_eq_with_tol(&F64(4.0), &F64(1.0)));
    assert!(!F64(3.0).abs_appro_eq_with_tol(&F64(4.0), &F64(0.999_999_9)));
    assert!(F64(0.5).abs_appro_eq_with_tol(&F64(0.25), &F64(0.25)));
}

#[test]
fn bad_compare_with_rel_div_zero_f32() {
    assert!(!F32(3.0).rel_appro_eq(&F32(0.0)));
    assert!(matches!(F32(3.0).rel_error(&F32(0.0)), Err(ApproEqError::DividedByZero)));
    assert!(!F32(3.0).rel_appro_eq_with_tol(&F32(0.0), &F32(f32::INFINITY)));
}

#[test]
fn bad_compare_with_rel_div_zero_f64() {
    assert!(!F64(3.0).rel_appro_eq(&F64(0.0)));
    assert!(matches!(F64(3.0).rel_error(&F64(0.0)), Err(ApproEqError::DividedByZero)));
    assert!(F64(3.0).rel_appro_ne(&F64(0.0)));
}

#[test]
fn it_should_not_panic_if_values_are_appro_equal_f32_f64() {
    assert!(F32(8.0).abs_appro_eq(&F64(8.0 + 1e-7)));
    assert!(F32(8.0).rel_appro_eq(&F64(8.0 + 1e-7)));
}

#[test]
fn it_should_panic_if_values_are_not_appro_equal_f32_f64() {
    assert!(!F32(8.0).abs_appro_eq(&F64(8.0 - 1e-5)));
    assert!(!F32(8.0).rel_appro_eq(&F64(8.0 - 1e-5)));
}

#[test]
fn bad_compare_with_explicit_eps_f32_f64() {
    assert!(!F32(3.0).abs_appro_eq_with_tol(&F64(4.0), &F32(1e-3)));
    assert!(!F32(3.0).rel_appro_eq_with_tol(&F64(4.0), &F32(1e-3)));
}

#[test]
fn it_should_not_panic_if_values_are_appro_equal_f64_f32() {
    assert!(F64(8.0).abs_appro_eq(&F32(8.0 + 1e-7)));
    assert!(F64(8.0).rel_appro_eq(&F32(8.0 + 1e-7)));
}

#[test]
fn it_should_panic_if_values_are_not_appro_equal_f64_f32() {
    assert!(!F64(8.0).abs_appro_eq(&F32(8.0 - 1e-5)));
    assert!(!F64(8.0).rel_appro_eq(&F32(8.0 - 1e-5)));
}

#[test]
fn bad_compare_with_explicit_eps_f64_f32() {
    assert!(!F64(3.0).abs_appro_eq_with_tol(&F32(4.0), &F32(1e-3)));
    assert!(!F64(3.0).rel_appro_eq_with_tol(&F32(4.0), &F32(1e-3)));
}

#[test]
fn compare_with_float_vector() {
    let a = all32(&[1.0, 2.0, 3.0, 4.0, 5.0, 6.0, 7.0 + 1e-8, 8.0, 9.0 - 1e-7, 10.0]);
    let b = all32(&[1.0, 2.0, 3.0, 4.0, 5.0, 6.0, 7.0, 8.0 - 1e-9, 9.0, 10.0]);
    assert!(a.abs_appro_eq(&b));
    assert!(a.rel_appro_eq(&b));
    let a = all64(&[0.0, 1.0, 0.0]);
    let b = all64(&[1e-12, 1.0, -1e-13]);
    assert!(a.abs_appro_eq(&b));
}

#[test]
fn bad_compare_with_float_vector() {
    let a = all32(&[1.0, 2.0, 3.0, 4.0, 5.0, 6.0, 7.0, 8.0, 9.0, 10.01]);
    let b = all32(&[1.0, 2.0, 3.0, 4.0, 5.0, 6.0, 7.0, 8.0, 9.0, 10.0]);
    assert!(!a.abs_appro_eq(&b));
    assert!(!a.rel_appro_eq(&b));
}

#[test]
fn bad_len_compare_with_float_vector() {
    let a = all64(&[1.0, 2.0, 3.0]);
    let b = all64(&[1.0, 2.0]);
    assert!(!a.abs_appro_eq(&b));
    assert!(!a.abs_appro_eq_with_tol(&b, &F64(f64::INFINITY)));
    assert!(!a.rel_appro_eq_with_tol(&b, &F64(f64::INFINITY)));
    assert!(matches!(a.abs_error(&b), Err(ApproEqError::LengthMismatch)));
}

#[test]
fn the_worst_float_decides() {
    let a = all64(&[1.0, 2.0, 3.0, 100.0]);
    let b = all64(&[1.0, 2.0, 3.0, 0.0]);
    assert!(!a.abs_appro_eq_with_tol(&b, &F64(1.0)));
    assert!(matches!(a.abs_error(&b), Ok(Some(F64(d))) if d == 100.0));
    assert!(a.abs_appro_eq_with_tol(&b, &F64(100.0)));
}

#[test]
fn compare_with_float_array_and_slice() {
    let a = [F32(1.0), F32(2.0), F32(3.0 + 1e-7)];
    let b = [F32(1.0), F32(2.0), F32(3.0)];
    assert!(a.abs_appro_eq(&b));
    let (x, y): (&[F32], &[F32]) = (&a, &b);
    assert!(x.abs_appro_eq(&y));
    let c = [F32(1.0), F32(2.0), F32(3.01)];
    assert!(!a.abs_appro_eq(&c));
}

#[test]
fn compare_with_float_option() {
    assert!(Some(F64(1.0)).abs_appro_eq(&Some(F64(1.0 + 1e-12))));
    assert!(Some(F64(1.0)).rel_appro_eq(&Some(F64(1.0 + 1e-12))));
    assert!(!Some(F64(2.0)).abs_appro_eq(&Some(F64(1.0))));
    let none: Option<F64> = None;
    assert!(!Some(F64(0.0)).abs_appro_eq(&none));
    assert!(!none.abs_appro_eq(&Some(F64(1.0))));
    assert!(none.abs_appro_eq(&none));
    assert!(none.rel_appro_eq(&none));
}

#[test]
fn compare_with_float_pointers() {
    assert!(Rc::new(F64(1.0)).abs_appro_eq(&Rc::new(F64(1.0))));
    assert!(!Rc::new(F64(1.0)).abs_appro_eq(&Rc::new(F64(1.00001))));
    assert!(Arc::new(F64(1.0)).abs_appro_eq(&Arc::new(F64(1.0))));
    assert!(!Arc::new(F64(1.0)).abs_appro_eq(&Arc::new(F64(1.00001))));
    for (a, b) in [(1.0, 1.0), (1.0, 1.00001), (0.0, 1e-12), (3.0, 4.0)] {
        let direct = F64(a).abs_appro_eq(&F64(b));
        assert_eq!(Rc::new(F64(a)).abs_appro_eq(&Rc::new(F64(b))), direct);
        let (x, y) = (Rc::new(F64(a)), Rc::new(F64(b)));
        let (wx, wy) = (Rc::downgrade(&x), Rc::downgrade(&y));
        assert_eq!(wx.upgrade().abs_appro_eq(&wy.upgrade()), direct);
    }
}

fn complex_abs_error(a: (f64, f64), b: (f64, f64)) -> Result<Option<F64>, ApproEqError> {
    match combine_parts(F64(a.0).abs_error(&F64(b.0)), F64(a.1).abs_error(&F64(b.1))) {
        Parts::Settled(outcome) => outcome,
        Parts::Both(F64(re), F64(im)) => Ok(Some(F64((re * re + im * im).sqrt()))),
    }
}

#[test]
fn compare_with_complex() {
    let d = complex_abs_error((1.0, 0.0), (1.0, 1e-12)).unwrap().unwrap();
    assert!(d <= F64::tolerance());
    let d = complex_abs_error((4.0, 0.0), (1.0, 4.0)).unwrap().unwrap();
    assert_eq!(d, F64(5.0));
}

#[test]
fn bad_compare_with_complex() {
    let d = complex_abs_error((1.0, 0.0), (1.0, 1e-8)).unwrap().unwrap();
    assert!(!(d <= F64::tolerance()));
}
