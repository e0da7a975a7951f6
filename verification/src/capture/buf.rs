//! Tools for handling PipeWire buffers.
use vstd::prelude::*;

verus! {

/// A buffer of PipeWire plain-old-data bytes.
pub struct PodBuf([u8]);

} // verus!
