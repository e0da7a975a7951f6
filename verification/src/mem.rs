//! Utilities for dealing with memory layouts: alignments and address masks.
use vstd::prelude::*;

pub mod align;
pub mod mask;
pub mod order;

pub use align::{Align, AlignError};
pub use mask::Mask;

verus! {
} // verus!
