//! The memory to be shared: the system page size.
use vstd::prelude::*;
use crate::bits::is_power_of_two;
use crate::mem::Align;

verus! {

/// Why the system page size could not be had.
#[derive(Debug, Clone, Copy, PartialEq, Eq, Structural)]
pub enum PageSizeError {
    /// The system reported an error (a negative page size, or one too large for a
    /// `usize`); the thread's last error number tells which.
    Os,
    /// The page size is not a power of two.
    NotPowerOfTwo,
}

/// The page size that the system reported as `raw` (the result of
/// `sysconf(_SC_PAGESIZE)`), as an alignment.
pub fn page_size_from_sysconf(raw: i64) -> (r: Result<Align, PageSizeError>)
    ensures
        (raw < 0 || raw > usize::MAX) ==> r == Err::<Align, PageSizeError>(PageSizeError::Os),
        0 <= raw <= usize::MAX && !is_power_of_two(raw as int) ==> r == Err::<
            Align,
            PageSizeError,
        >(PageSizeError::NotPowerOfTwo),
        0 <= raw <= usize::MAX && is_power_of_two(raw as int) ==> (r matches Ok(a) && a@ == raw),
{
    match usize::try_from(raw) {
        Ok(size) => match Align::try_from(size) {
            Ok(align) => Ok(align),
            Err(_) => Err(PageSizeError::NotPowerOfTwo),
        },
        Err(_) => Err(PageSizeError::Os),
    }
}

/// The page size that a cache holds: a cache that holds no power of two (such as the
/// initial zero) holds nothing yet.
pub fn cached_page_size(cache: usize) -> (r: Option<Align>)
    ensures
        r is Some <==> is_power_of_two(cache as int),
        r matches Some(a) ==> a@ == cache,
{
    Align::new(cache)
}

} // verus!
