//! Hints to the compiler about which way a branch is expected to go.
use vstd::prelude::*;

verus! {

/// Marks some `bool` as being likely `true`. Returns it unchanged.
#[must_use]
pub fn likely(b: bool) -> (r: bool)
    ensures
        r == b,
{
    b
}

/// Marks some `bool` as being likely `false`. Returns it unchanged.
#[must_use]
pub fn unlikely(b: bool) -> (r: bool)
    ensures
        r == b,
{
    b
}

/// Marks some value of type `T` as one that must be used. Returns it unchanged.
#[must_use]
pub fn must_use<T>(x: T) -> (r: T)
    ensures
        r == x,
{
    x
}

} // verus!
