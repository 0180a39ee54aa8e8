//! Approximate equality: the absolute or relative error between two
//! values, compared against a tolerance.
//!
//! An error computation ends in one of three ways: a distance, the absence
//! of any distance (both values count as equal), or a failure. A distance
//! passes when it is at most the tolerance, the absence of one always
//! passes, a failure never does.
//!
//! - [`traits`]: the traits a type implements to take part, and the
//!   predicates that every such type gets.
//! - [`unsigned`], [`signed`]: the primitive integers.
//! - [`worst`], [`seq`]: sequences, whose worst element decides.
//! - [`wrappers`]: optional values and shared pointers.
//! - [`time`]: lengths of time and points in time.
//! - [`rational`]: exact fractions.
//! - [`grid`]: dense arrays of any number of axes.
//! - [`complex`]: how the two parts of a complex value combine.
//! - [`laws`]: what holds of all of these.

pub mod error;
pub mod traits;
pub mod unsigned;
pub mod signed;
pub mod worst;
pub mod seq;
pub mod wrappers;
pub mod grid;
pub mod time;
pub mod rational;
pub mod complex;
pub mod laws;

pub use crate::error::ApproEqError;
pub use crate::traits::{
    AbsApproEq, AbsApproEqWithTol, AbsError, AbsTolerance, RelApproEq, RelApproEqWithTol,
    RelError, RelTolerance, Tolerance,
};
