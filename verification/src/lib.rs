//! Utilities that should be fairly universal for this ecosystem: powers of two, memory
//! alignments and masks, Linux syscall words and error numbers, DMA-BUF synchronization
//! rights, and the decisions behind a file-descriptor signalled channel.
use vstd::prelude::*;

pub mod bits;
pub mod hint;
pub mod sys;
pub mod platform;
pub mod capture;
pub mod ptr;
pub mod text;
pub mod ty;
pub mod video;
pub mod num;
pub mod mem;

verus! {
} // verus!
