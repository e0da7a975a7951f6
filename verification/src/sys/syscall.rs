//! The machine words that are passed to and returned from syscalls.
use vstd::prelude::*;
use std::io;
use crate::sys::errno::{Errno, EINVAL, syscall_outcome};

verus! {

#[verifier::external_type_specification]
#[verifier::external_body]
pub struct ExIoError(io::Error);

#[verifier::external_type_specification]
#[verifier::external_body]
pub struct ExIoErrorKind(io::ErrorKind);

/// What std's `io::Error::kind` returns for an I/O error.
pub uninterp spec fn io_error_kind_of(error: io::Error) -> io::ErrorKind;

/// `std::io::Error::kind`: the kind of an I/O error.
#[verifier::external_body]
pub(crate) fn io_error_kind(error: &io::Error) -> (r: io::ErrorKind)
    ensures
        r == io_error_kind_of(*error),
{
    error.kind()
}

/// What std's `io::Error::from_raw_os_error` builds for an OS error code.
pub uninterp spec fn io_error_of(code: i32) -> io::Error;

/// `std::io::Error::from_raw_os_error`: builds the I/O error for an OS error code.
#[verifier::external_body]
pub(crate) fn io_error_from_raw_os_error(code: i32) -> (r: io::Error)
    ensures
        r == io_error_of(code),
{
    io::Error::from_raw_os_error(code)
}

/// The type that is passed along to syscalls: a machine word. A word made from an
/// address keeps the address only (not what the address points to).
#[derive(Debug, Clone, Copy, PartialEq, Eq, Structural, PartialOrd, Ord, Hash, Default)]
pub struct SysWord(usize);

impl SysWord {
    /// The word, as an unsigned machine integer.
    pub closed spec fn view(self) -> usize {
        self.0
    }

    /// Create a new [`SysWord`] from a `usize`.
    pub fn from_usize(x: usize) -> (r: SysWord)
        ensures
            r@ == x,
    {
        SysWord(x)
    }

    /// Get this [`SysWord`] as a `usize`.
    pub fn as_usize(self) -> (r: usize)
        ensures
            r == self@,
    {
        self.0
    }

    /// Create a new [`SysWord`] from an `isize`, reinterpreting its bits.
    pub fn from_isize(x: isize) -> (r: SysWord)
        ensures
            r@ == x as usize,
    {
        SysWord::from_usize(x as usize)
    }

    /// Get this [`SysWord`] as an `isize`, reinterpreting its bits.
    pub fn as_isize(self) -> (r: isize)
        ensures
            r == self@ as isize,
    {
        self.as_usize() as isize
    }

    /// Create a [`SysWord`] from a `u32`. This never truncates, as 16-bit platforms are
    /// not supported.
    pub fn from_u32(x: u32) -> (r: SysWord)
        ensures
            r@ == x,
    {
        SysWord::from_usize(x as usize)
    }

    /// Get this [`SysWord`] as a `u32`, if it fits.
    pub fn as_u32(self) -> (r: Option<u32>)
        ensures
            r is Some <==> self@ <= u32::MAX,
            r matches Some(v) ==> v == self@,
    {
        u32::try_from(self.as_usize()).ok()
    }

    /// Create a [`SysWord`] from an `i32`. This sign-extends `x`, so it differs from
    /// `SysWord::from_u32(x as u32)` for negative `x` on platforms wider than 32 bits.
    pub fn from_i32(x: i32) -> (r: SysWord)
        ensures
            r@ == x as isize as usize,
    {
        SysWord::from_isize(x as isize)
    }

    /// Get this [`SysWord`] as an `i32`, if its signed value fits.
    pub fn as_i32(self) -> (r: Option<i32>)
        ensures
            r is Some <==> i32::MIN <= self@ as isize <= i32::MAX,
            r matches Some(v) ==> v == self@ as isize,
    {
        i32::try_from(self.as_isize()).ok()
    }

    /// Create a [`SysWord`] from a `u64`, if it fits.
    pub fn from_u64(x: u64) -> (r: Option<SysWord>)
        ensures
            r is Some <==> x <= usize::MAX,
            r matches Some(w) ==> w@ == x,
    {
        if usize::BITS >= u64::BITS || x <= (usize::MAX as u64) {
            Some(SysWord::from_usize(x as usize))
        } else {
            None
        }
    }

    /// Get this [`SysWord`] as a `u64` (this always fits).
    pub fn as_u64(self) -> (r: Option<u64>)
        ensures
            r == Some(self@ as u64),
    {
        u64::try_from(self.as_usize()).ok()
    }

    /// Create a [`SysWord`] from an `i64`, if it fits in an `isize`.
    pub fn from_i64(x: i64) -> (r: Option<SysWord>)
        ensures
            r is Some <==> isize::MIN <= x <= isize::MAX,
            r matches Some(w) ==> w@ == x as isize as usize,
    {
        if isize::BITS >= i64::BITS || ((x >= isize::MIN as i64) && (x <= isize::MAX as i64)) {
            Some(SysWord::from_isize(x as isize))
        } else {
            None
        }
    }

    /// Get this [`SysWord`] as an `i64` (this always fits).
    pub fn as_i64(self) -> (r: Option<i64>)
        ensures
            r == Some(self@ as isize as i64),
    {
        i64::try_from(self.as_isize()).ok()
    }

    /// Returns whether this [`SysWord`], treated as an address, is null.
    pub fn is_null(self) -> (r: bool)
        ensures
            r == (self@ == 0),
    {
        self.0 == 0
    }

    /// If this word is an error return value of a syscall (`-4095..=-1`), return its
    /// [`Errno`], otherwise return `self`.
    pub fn as_errno(self) -> (r: Result<SysWord, Errno>)
        ensures
            r is Ok <==> syscall_outcome(self@ as isize as int) is Ok,
            r matches Ok(w) ==> w == self,
            r matches Err(e) ==> e.0 == -(self@ as isize),
    {
        match Errno::from_syscall(self.as_isize()) {
            Ok(..) => Ok(self),
            Err(errno) => Err(errno),
        }
    }

    /// Same as [`SysWord::as_errno`], but turn the error into an [`io::Error`].
    pub fn as_error(self) -> (r: Result<SysWord, io::Error>)
        ensures
            r is Ok <==> syscall_outcome(self@ as isize as int) is Ok,
            r matches Ok(w) ==> w == self,
            r matches Err(e) ==> e == io_error_of(-(self@ as isize) as i32),
    {
        match self.as_errno() {
            Ok(w) => Ok(w),
            Err(errno) => Err(io_error_from_raw_os_error(errno.0)),
        }
    }
}

/// A word is determined by its value, so words made from equal values are equal.
pub proof fn lemma_sysword_determined_by_view(a: SysWord, b: SysWord)
    requires
        a@ == b@,
    ensures
        a == b,
{
}

/// Empty results are all equal: no error flag and all values zero determine a result, so
/// `SysResult::empty()` and `SysResult::default()` are the same.
pub proof fn lemma_empty_results_equal<const N: usize>(a: SysResult<N>, b: SysResult<N>)
    requires
        a.error_flag is None,
        b.error_flag is None,
        forall|i: int| 0 <= i < N ==> (#[trigger] a.values[i])@ == 0,
        forall|i: int| 0 <= i < N ==> (#[trigger] b.values[i])@ == 0,
    ensures
        a == b,
{
    assert(a.values@ =~= b.values@);
    assert(a.values == b.values);
}

/// Converting a word to and from each integer type gives back what was converted: a
/// `usize` or `isize` unchanged, a `u32` unchanged, and an `i32` unchanged (its sign
/// extension is undone).
pub proof fn lemma_sysword_roundtrip(x: usize, y: isize, u: u32, i: i32)
    ensures
        (x as isize) as usize == x,
        (y as usize) as isize == y,
        (u as usize) <= u32::MAX && (u as usize) as u32 == u,
        (((i as isize) as usize) as isize) == i,
        i32::MIN <= (((i as isize) as usize) as isize) <= i32::MAX,
{
    assert((x as isize) as usize == x) by (bit_vector);
    assert((y as usize) as isize == y) by (bit_vector);
    assert((((i as isize) as usize) as isize) == i as isize) by (bit_vector);
}

/// On 64-bit targets, a word made from a negative `i32` (which is sign-extended) differs
/// from the word made from the same bits read as a `u32` (which is zero-extended).
pub proof fn lemma_sign_extension_differs(x: i32)
    requires
        x < 0,
        usize::BITS == 64,
    ensures
        (x as isize) as usize != (x as u32) as usize,
{
    assert(usize::BITS == 64 && x < 0 ==> (x as isize) as usize != (x as u32) as usize)
        by (bit_vector);
}

impl From<usize> for SysWord {
    fn from(x: usize) -> (r: SysWord)
        ensures
            r@ == x,
    {
        SysWord::from_usize(x)
    }
}

impl From<SysWord> for usize {
    fn from(word: SysWord) -> (r: usize)
        ensures
            r == word@,
    {
        word.as_usize()
    }
}

impl From<isize> for SysWord {
    fn from(x: isize) -> (r: SysWord)
        ensures
            r@ == x as usize,
    {
        SysWord::from_isize(x)
    }
}

impl From<SysWord> for isize {
    fn from(word: SysWord) -> (r: isize)
        ensures
            r == word@ as isize,
    {
        word.as_isize()
    }
}

impl From<u32> for SysWord {
    fn from(x: u32) -> (r: SysWord)
        ensures
            r@ == x,
    {
        SysWord::from_u32(x)
    }
}

impl From<i32> for SysWord {
    fn from(x: i32) -> (r: SysWord)
        ensures
            r@ == x as isize as usize,
    {
        SysWord::from_i32(x)
    }
}

impl vstd::std_specs::convert::FromSpecImpl<usize> for SysWord {
    open spec fn obeys_from_spec() -> bool {
        true
    }

    closed spec fn from_spec(v: usize) -> SysWord {
        SysWord(v)
    }
}

impl vstd::std_specs::convert::FromSpecImpl<SysWord> for usize {
    open spec fn obeys_from_spec() -> bool {
        true
    }

    open spec fn from_spec(v: SysWord) -> usize {
        v@
    }
}

impl vstd::std_specs::convert::FromSpecImpl<isize> for SysWord {
    open spec fn obeys_from_spec() -> bool {
        true
    }

    closed spec fn from_spec(v: isize) -> SysWord {
        SysWord(v as usize)
    }
}

impl vstd::std_specs::convert::FromSpecImpl<SysWord> for isize {
    open spec fn obeys_from_spec() -> bool {
        true
    }

    open spec fn from_spec(v: SysWord) -> isize {
        v@ as isize
    }
}

impl vstd::std_specs::convert::FromSpecImpl<u32> for SysWord {
    open spec fn obeys_from_spec() -> bool {
        true
    }

    closed spec fn from_spec(v: u32) -> SysWord {
        SysWord(v as usize)
    }
}

impl vstd::std_specs::convert::FromSpecImpl<i32> for SysWord {
    open spec fn obeys_from_spec() -> bool {
        true
    }

    closed spec fn from_spec(v: i32) -> SysWord {
        SysWord(v as isize as usize)
    }
}

/// An error that gets returned if we get a null pointer where we do not expect one.
#[derive(Debug, Clone, Copy, PartialEq, Eq, Structural, PartialOrd, Ord, Hash)]
pub struct NullPtrError;

impl NullPtrError {
    /// The message that describes this error.
    pub fn description(&self) -> (r: &'static str)
        ensures
            r@ == "provided pointer was null"@,
    {
        "provided pointer was null"
    }
}

impl From<NullPtrError> for Errno {
    /// A null pointer where none is expected is an invalid argument.
    fn from(_error: NullPtrError) -> (r: Errno)
        ensures
            r.0 == EINVAL,
    {
        Errno(EINVAL)
    }
}

impl vstd::std_specs::convert::FromSpecImpl<NullPtrError> for Errno {
    open spec fn obeys_from_spec() -> bool {
        true
    }

    open spec fn from_spec(v: NullPtrError) -> Errno {
        Errno(EINVAL)
    }
}

/// The return value of a syscall.
#[derive(Debug, Clone, Copy, PartialEq, Eq, PartialOrd, Ord, Hash)]
pub struct SysResult<const N: usize> {
    /// An error flag, on the platforms that have one, that tells whether the syscall
    /// failed; `None` on the others.
    pub error_flag: Option<bool>,
    /// The return values. All platforms return `values[0]`; where a platform has no
    /// second return value, a zero word is supplied.
    pub values: [SysWord; N],
}

impl<const N: usize> SysResult<N> {
    /// An empty [`SysResult`]: no error flag and all values zero.
    pub fn empty() -> (r: SysResult<N>)
        ensures
            r.error_flag is None,
            forall|i: int| 0 <= i < N ==> (#[trigger] r.values[i])@ == 0,
    {
        SysResult { error_flag: None, values: [SysWord(0); N] }
    }
}

impl<const N: usize> Default for SysResult<N> {
    /// The default result is the empty one.
    fn default() -> (r: Self)
        ensures
            r.error_flag is None,
            forall|i: int| 0 <= i < N ==> (#[trigger] r.values[i])@ == 0,
    {
        SysResult::empty()
    }
}

} // verus!
