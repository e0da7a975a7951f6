//! Screen capture support: the PipeWire buffer type and the decisions of the channel that
//! signals a receiver through a pipe.
use vstd::prelude::*;

pub mod buf;
pub mod channel;
pub mod memory;
pub mod screen;

verus! {
} // verus!
