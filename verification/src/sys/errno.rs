//! Linux error numbers, as syscalls return them.
use vstd::prelude::*;
use std::io;
use crate::sys::syscall::{io_error_from_raw_os_error, io_error_kind, io_error_kind_of, io_error_of};

verus! {

/// Linux error number: interrupted system call.
pub const EINTR: i32 = 4;
/// Linux error number: bad file descriptor.
pub const EBADF: i32 = 9;
/// Linux error number: try again (the same number as `EWOULDBLOCK`).
pub const EAGAIN: i32 = 11;
/// Linux error number: the operation would block (the same number as `EAGAIN`).
pub const EWOULDBLOCK: i32 = 11;
/// Linux error number: invalid argument.
pub const EINVAL: i32 = 22;
/// Linux error number: broken pipe.
pub const EPIPE: i32 = 32;
/// Linux error number: result out of range.
pub const ERANGE: i32 = 34;
/// Linux error number: connection timed out.
pub const ETIMEDOUT: i32 = 110;

/// The largest error number that a syscall can report: syscalls return `-4095..=-1` for
/// errors, and never return such a value on success.
pub const MAX_ERRNO: i32 = 4095;

/// The outcome that the raw return value of a syscall stands for: values in
/// `-4095..=-1` report the error number `-value`, every other value is a success.
pub open spec fn syscall_outcome(return_value: int) -> Result<int, int> {
    if -MAX_ERRNO <= return_value < 0 {
        Err(-return_value)
    } else {
        Ok(return_value)
    }
}

/// A Linux error number.
#[derive(Debug, Clone, Copy, PartialEq, Eq, Structural, PartialOrd, Ord, Default, Hash)]
pub struct Errno(pub i32);

impl Errno {
    /// Attempt to encode this [`Errno`] as the value a syscall would return.
    ///
    /// Returns `Err(-code)` for codes in `1..4096`, and `Ok(())` for codes that no
    /// syscall can report.
    pub fn to_syscall(self) -> (r: Result<(), isize>)
        ensures
            r is Err <==> 1 <= self.0 <= MAX_ERRNO,
            r matches Err(v) ==> v == -self.0,
    {
        if 1 <= self.0 && self.0 <= MAX_ERRNO {
            Err(-(self.0 as isize))
        } else {
            Ok(())
        }
    }

    /// Decode the value returned from a syscall: values in `-4095..=-1` are errors, all
    /// other values are successes.
    pub fn from_syscall(return_value: isize) -> (r: Result<isize, Errno>)
        ensures
            r is Err <==> syscall_outcome(return_value as int) is Err,
            r matches Ok(v) ==> v == return_value,
            r matches Err(e) ==> e.0 == -return_value,
    {
        if -(MAX_ERRNO as isize) <= return_value && return_value < 0 {
            Err(Errno(-(return_value as i32)))
        } else {
            Ok(return_value)
        }
    }

    /// The [`io::ErrorKind`] of this error number: the kind of the I/O error built from it.
    pub fn error_kind(self) -> (r: io::ErrorKind)
        ensures
            r == io_error_kind_of(io_error_of(self.0)),
    {
        let error = io_error_from_raw_os_error(self.0);
        io_error_kind(&error)
    }

    /// The outcome of asking the C library for the details of an error number
    /// (`strerror_r`): `0` means the details were written, a positive value is the error
    /// number of the failure itself, and a negative value means the failure was reported
    /// through `last`, the thread's last error number.
    pub fn details_status(result: i32, last: Errno) -> (r: Result<(), Errno>)
        ensures
            result == 0 ==> r is Ok,
            result > 0 ==> r == Err::<(), Errno>(Errno(result)),
            result < 0 ==> r == Err::<(), Errno>(last),
    {
        if result == 0 {
            Ok(())
        } else if result > 0 {
            Err(Errno(result))
        } else {
            Err(last)
        }
    }
}

/// Encoding an error number for a syscall and decoding it again gives it back, and
/// decoding an error return value and encoding the error gives the value back.
pub proof fn lemma_syscall_roundtrip(e: Errno, v: isize)
    ensures
        1 <= e.0 <= MAX_ERRNO ==> syscall_outcome(-e.0) == Err::<int, int>(e.0 as int),
        syscall_outcome(v as int) matches Err(code) ==> 1 <= code <= MAX_ERRNO && -code == v,
        syscall_outcome(v as int) matches Ok(x) ==> x == v && !(-MAX_ERRNO <= x < 0),
{
}

impl From<i32> for Errno {
    fn from(error: i32) -> (r: Errno)
        ensures
            r.0 == error,
    {
        Errno(error)
    }
}

impl vstd::std_specs::convert::FromSpecImpl<i32> for Errno {
    open spec fn obeys_from_spec() -> bool {
        true
    }

    open spec fn from_spec(v: i32) -> Errno {
        Errno(v)
    }
}

impl From<Errno> for i32 {
    fn from(errno: Errno) -> (r: i32)
        ensures
            r == errno.0,
    {
        errno.0
    }
}

impl vstd::std_specs::convert::FromSpecImpl<Errno> for i32 {
    open spec fn obeys_from_spec() -> bool {
        true
    }

    open spec fn from_spec(v: Errno) -> i32 {
        v.0
    }
}

} // verus!
