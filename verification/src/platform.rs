//! Linux platform utilities: error numbers of the C library and DMA-BUF synchronization.
use vstd::prelude::*;

pub mod dma_buf;
pub mod errno;

verus! {
} // verus!
