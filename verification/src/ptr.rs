//! Pointer metadata: the length that references to C strings carry.
use vstd::prelude::*;
use core::num::TryFromIntError;

verus! {

/// The metadata of a reference to a C string (`CStr`): its length. References to C
/// strings are fat pointers that carry this length.
#[derive(Debug, Clone, Copy, PartialEq, Eq, Structural, PartialOrd, Ord, Default, Hash)]
pub struct CStrMetadata {
    repr: usize,
}

impl CStrMetadata {
    /// The length this metadata stores.
    pub closed spec fn view(self) -> usize {
        self.repr
    }

    /// Create a new [`CStrMetadata`] from a length.
    pub fn new(length: usize) -> (r: CStrMetadata)
        ensures
            r@ == length,
    {
        CStrMetadata { repr: length }
    }

    /// Attempt to create a [`CStrMetadata`] from `()`: this fails, as the metadata of a C
    /// string holds a length.
    pub fn from_unit(_unit: ()) -> (r: Option<CStrMetadata>)
        ensures
            r is None,
    {
        None
    }

    /// Returns the length stored within this metadata.
    pub fn get(self) -> (r: Option<usize>)
        ensures
            r == Some(self@),
    {
        Some(self.repr)
    }
}

impl From<usize> for CStrMetadata {
    fn from(length: usize) -> (r: CStrMetadata)
        ensures
            r@ == length,
    {
        CStrMetadata::new(length)
    }
}

impl vstd::std_specs::convert::FromSpecImpl<usize> for CStrMetadata {
    open spec fn obeys_from_spec() -> bool {
        true
    }

    closed spec fn from_spec(v: usize) -> CStrMetadata {
        CStrMetadata { repr: v }
    }
}

/// `Clone::clone` of `TryFromIntError`: the type is `Copy`, so a clone is the same value.
pub assume_specification[ <TryFromIntError as Clone>::clone ](error: &TryFromIntError) -> (r:
    TryFromIntError)
    ensures
        r == *error,
;

/// Error that can occur when handling [`CStrMetadata`].
#[derive(Debug, Clone, Copy, PartialEq, Eq)]
#[non_exhaustive]
pub enum CStrMetadataError {
    /// `CStr` is a thin pointee in a context where it shouldn't be.
    IsThin,
    /// `CStr` is not a thin pointee in a context where it should be.
    NotThin,
    /// There was an error when converting to an integer.
    TryFromInt(TryFromIntError),
}

impl CStrMetadataError {
    /// The message that describes this error, for the errors that have one of their own.
    pub fn description(&self) -> (r: Option<&'static str>)
        ensures
            self is IsThin ==> (r matches Some(s) && s@
                == "`CStr` is a thin pointer in a context where it shouldn't be"@),
            self is NotThin ==> (r matches Some(s) && s@
                == "`CStr` is not a thin pointer in a context when it should be"@),
            self is TryFromInt ==> r is None,
    {
        match self {
            CStrMetadataError::IsThin => Some(
                "`CStr` is a thin pointer in a context where it shouldn't be",
            ),
            CStrMetadataError::NotThin => Some(
                "`CStr` is not a thin pointer in a context when it should be",
            ),
            CStrMetadataError::TryFromInt(_) => None,
        }
    }
}

impl From<TryFromIntError> for CStrMetadataError {
    fn from(error: TryFromIntError) -> (r: CStrMetadataError)
        ensures
            r == CStrMetadataError::TryFromInt(error),
    {
        CStrMetadataError::TryFromInt(error)
    }
}

impl vstd::std_specs::convert::FromSpecImpl<TryFromIntError> for CStrMetadataError {
    open spec fn obeys_from_spec() -> bool {
        true
    }

    open spec fn from_spec(v: TryFromIntError) -> CStrMetadataError {
        CStrMetadataError::TryFromInt(v)
    }
}

impl TryFrom<CStrMetadata> for usize {
    type Error = CStrMetadataError;

    /// The length that the metadata stores.
    fn try_from(metadata: CStrMetadata) -> (r: Result<usize, CStrMetadataError>)
        ensures
            r == Ok::<usize, CStrMetadataError>(metadata@),
    {
        match metadata.get() {
            Some(length) => Ok(length),
            None => Err(CStrMetadataError::IsThin),
        }
    }
}

impl vstd::std_specs::convert::TryFromSpecImpl<CStrMetadata> for usize {
    open spec fn obeys_try_from_spec() -> bool {
        true
    }

    open spec fn try_from_spec(v: CStrMetadata) -> Result<usize, CStrMetadataError> {
        Ok(v@)
    }
}

} // verus!
