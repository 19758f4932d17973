//! Closed-form strength-sport formulas in exact rational arithmetic:
//! bodyweight coefficients and estimated one-repetition-maximum conversions.
use vstd::prelude::*;

pub mod bignat;
pub mod bigint;
pub mod ratio;
pub mod util;
pub mod bw_coefficients;
pub mod estimates;

verus! {

/// Sex category of a lifter; selects the coefficient table.
#[derive(Clone, Copy, Debug, PartialEq, Eq, Structural)]
pub enum Gender {
    Male,
    Female,
}

} // verus!
