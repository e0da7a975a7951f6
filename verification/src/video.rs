//! Video related functionality.
use vstd::prelude::*;

verus! {

/// An enumeration for pixel formats.
#[derive(Debug, Clone, Copy, PartialEq, Eq, Structural, PartialOrd, Ord, Hash, Default)]
#[non_exhaustive]
pub enum PixelFormat {
    /// The NV12 format: a luma plane followed by an interleaved chroma plane.
    #[default]
    Nv12,
}

} // verus!
