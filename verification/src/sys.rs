//! Linux core utilities: raw syscall words and syscall-level error numbers.
use vstd::prelude::*;

pub mod details;
pub mod errno;
pub mod syscall;

verus! {
} // verus!
