//! Comparisons of machine words that the layout types are built on.
use vstd::prelude::*;
use core::cmp::Ordering;

verus! {

/// The three-way comparison of two integers, as an `Ordering`.
pub open spec fn ordering_of(lhs: usize, rhs: usize) -> Ordering {
    if lhs < rhs {
        Ordering::Less
    } else if lhs == rhs {
        Ordering::Equal
    } else {
        Ordering::Greater
    }
}

/// Perform a three-way comparison on two `usize`s.
pub fn compare(lhs: usize, rhs: usize) -> (r: Ordering)
    ensures
        r == ordering_of(lhs, rhs),
{
    if lhs > rhs {
        Ordering::Greater
    } else if lhs < rhs {
        Ordering::Less
    } else {
        Ordering::Equal
    }
}

/// Get the minimum of two `usize`s (the first one when they are equal).
pub fn min(a: usize, b: usize) -> (r: usize)
    ensures
        r == (if b < a { b } else { a }),
{
    match compare(b, a) {
        Ordering::Less => b,
        Ordering::Greater | Ordering::Equal => a,
    }
}

/// Get the maximum of two `usize`s (the second one when they are equal).
pub fn max(a: usize, b: usize) -> (r: usize)
    ensures
        r == (if b < a { a } else { b }),
{
    match compare(b, a) {
        Ordering::Less => a,
        Ordering::Greater | Ordering::Equal => b,
    }
}

/// Clamp a `usize` with a `min` and `max` value.
///
/// Returns `None` if `min > max`.
pub fn clamp(value: usize, min: usize, max: usize) -> (r: Option<usize>)
    ensures
        r == (if min <= max {
            Some(if value < min { min } else if value > max { max } else { value })
        } else {
            None
        }),
{
    if min <= max {
        if value < min {
            Some(min)
        } else if value > max {
            Some(max)
        } else {
            Some(value)
        }
    } else {
        None
    }
}

} // verus!
