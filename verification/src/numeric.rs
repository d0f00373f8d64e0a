//! Keeping the value of a numeric field within its optional bounds.

use vstd::prelude::*;
use vstd::std_specs::cmp::{PartialOrdIs, PartialOrdSpec};

verus! {

/// `value` raised to `min` where it lies below it, and the result lowered to
/// `max` where it lies above it. A bound that is absent, or that the value
/// cannot be compared with, leaves the value as it is.
pub open spec fn within_bounds<T: PartialOrd>(value: T, min: Option<T>, max: Option<T>) -> T {
    let raised = match min {
        Some(low) => if value.is_lt(&low) {
            low
        } else {
            value
        },
        None => value,
    };
    match max {
        Some(high) => if raised.is_gt(&high) {
            high
        } else {
            raised
        },
        None => raised,
    }
}

/// The value a numeric field takes when `value` is entered into it.
pub fn clamp_to_bounds<T: PartialOrd + Copy>(value: T, min: Option<T>, max: Option<T>) -> (kept: T)
    ensures
        T::obeys_partial_cmp_spec() ==> kept == within_bounds(value, min, max),
{
    let raised = match min {
        Some(low) => if value < low {
            low
        } else {
            value
        },
        None => value,
    };
    match max {
        Some(high) => if raised > high {
            high
        } else {
            raised
        },
        None => raised,
    }
}

/// For integers, a value that is entered between consistent bounds is kept,
/// and every other value ends up on the bound it went past.
pub proof fn lemma_within_integer_bounds(value: i64, min: i64, max: i64)
    requires
        min <= max,
    ensures
        min <= within_bounds(value, Some(min), Some(max)) <= max,
        min <= value <= max ==> within_bounds(value, Some(min), Some(max)) == value,
        value < min ==> within_bounds(value, Some(min), Some(max)) == min,
        value > max ==> within_bounds(value, Some(min), Some(max)) == max,
        within_bounds(value, None, None) == value,
{
}

} // verus!
