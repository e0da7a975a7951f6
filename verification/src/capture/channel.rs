//! The decisions of a channel whose sender signals the receiver through a pipe: what a
//! sender does after each `poll` and `write`, and the errors it reports.
use vstd::prelude::*;
use std::io;
use crate::platform::errno::Errno;
use crate::sys::errno::{EAGAIN, EINTR, EPIPE, ETIMEDOUT, EWOULDBLOCK};

verus! {

/// `poll` event: writing is now possible.
pub const POLLOUT: i16 = 0x4;
/// `poll` event: an error condition.
pub const POLLERR: i16 = 0x8;
/// `poll` event: hang up.
pub const POLLHUP: i16 = 0x10;
/// `poll` event: the peer closed its end.
pub const POLLRDHUP: i16 = 0x2000;

/// An error that can occur when sending a value over a channel. Each variant carries the
/// value that could not be sent, where it could be kept.
#[non_exhaustive]
pub enum SendError<T> {
    /// The channel is closed.
    Closed(Option<T>),
    /// We timed out while using the channel.
    TimedOut(Option<T>),
    /// Some other I/O error occurred.
    Other(Option<T>, io::Error),
}

impl<T> SendError<T> {
    /// The value that this error carries, if any.
    pub open spec fn value(self) -> Option<T> {
        match self {
            SendError::Closed(value) => value,
            SendError::TimedOut(value) => value,
            SendError::Other(value, _) => value,
        }
    }

    /// `self` and `other` are the same kind of error, and an `Other` error carries the
    /// same I/O error in both.
    pub open spec fn same_kind<U>(self, other: SendError<U>) -> bool {
        match (self, other) {
            (SendError::Closed(_), SendError::Closed(_)) => true,
            (SendError::TimedOut(_), SendError::TimedOut(_)) => true,
            (SendError::Other(_, a), SendError::Other(_, b)) => a == b,
            _ => false,
        }
    }

    /// Maps the inner value with `f`.
    pub fn map<F, U>(self, f: F) -> (r: SendError<U>)
        where
            F: FnOnce(T) -> U,
        requires
            self.value() matches Some(v) ==> call_requires(f, (v,)),
        ensures
            self.same_kind(r),
            r.value() is None <==> self.value() is None,
            self.value() matches Some(v) ==> call_ensures(f, (v,), r.value().unwrap()),
    {
        match self {
            SendError::Closed(value) => SendError::Closed(value.map(f)),
            SendError::TimedOut(value) => SendError::TimedOut(value.map(f)),
            SendError::Other(value, error) => SendError::Other(value.map(f), error),
        }
    }

    /// Performs a flat mapping of the inner value with `f`.
    pub fn and_then<F, U>(self, f: F) -> (r: SendError<U>)
        where
            F: FnOnce(T) -> Option<U>,
        requires
            self.value() matches Some(v) ==> call_requires(f, (v,)),
        ensures
            self.same_kind(r),
            self.value() is None ==> r.value() is None,
            self.value() matches Some(v) ==> call_ensures(f, (v,), r.value()),
    {
        match self {
            SendError::Closed(value) => SendError::Closed(value.and_then(f)),
            SendError::TimedOut(value) => SendError::TimedOut(value.and_then(f)),
            SendError::Other(value, error) => SendError::Other(value.and_then(f), error),
        }
    }

    /// Get a reference to the inner value.
    pub fn get(&self) -> (r: Option<&T>)
        ensures
            r is None <==> self.value() is None,
            r matches Some(x) ==> *x == self.value().unwrap(),
    {
        match self {
            SendError::Closed(value) => value.as_ref(),
            SendError::TimedOut(value) => value.as_ref(),
            SendError::Other(value, _) => value.as_ref(),
        }
    }

    /// Get a mutable reference to the inner value. Writing through it changes the value
    /// that this error carries and nothing else.
    pub fn get_mut(&mut self) -> (r: Option<&mut T>)
        ensures
            r is None <==> old(self).value() is None,
            r is None ==> *final(self) == *old(self),
            r matches Some(x) ==> *x == old(self).value().unwrap() && final(self).same_kind(
                *old(self),
            ) && final(self).value() == Some(*final(x)),
    {
        match self {
            SendError::Closed(value) => value.as_mut(),
            SendError::TimedOut(value) => value.as_mut(),
            SendError::Other(value, _) => value.as_mut(),
        }
    }

    /// Get the inner value as a mutable slice of zero or one values.
    pub fn as_slice_mut(&mut self) -> (r: &mut [T])
        ensures
            r@ == (match old(self).value() {
                Some(x) => seq![x],
                None => seq![],
            }),
            final(r)@.len() == r@.len(),
            final(self).same_kind(*old(self)),
            final(self).value() == (match old(self).value() {
                Some(_) => Some(final(r)@[0]),
                None => None,
            }),
    {
        match self {
            SendError::Closed(value) => value.as_mut_slice(),
            SendError::TimedOut(value) => value.as_mut_slice(),
            SendError::Other(value, _) => value.as_mut_slice(),
        }
    }

    /// Get the inner value as a slice of zero or one values.
    pub fn as_slice(&self) -> (r: &[T])
        ensures
            r@ == (match self.value() {
                Some(x) => seq![x],
                None => seq![],
            }),
    {
        match self {
            SendError::Closed(value) => value.as_slice(),
            SendError::TimedOut(value) => value.as_slice(),
            SendError::Other(value, _) => value.as_slice(),
        }
    }

    /// The message that describes this error.
    pub fn description(&self) -> (r: &'static str)
        ensures
            self is Closed ==> r@ == "channel has closed"@,
            self is TimedOut ==> r@ == "write exceeded timeout"@,
            self is Other ==> r@ == "an unknown error has occurred"@,
    {
        match self {
            SendError::Closed(_) => "channel has closed",
            SendError::TimedOut(_) => "write exceeded timeout",
            SendError::Other(_, _) => "an unknown error has occurred",
        }
    }
}

/// What a sender does after polling its pipe for writability.
#[derive(Debug, Clone, Copy, PartialEq, Eq, Structural)]
pub enum PollStep {
    /// The poll was interrupted: poll again.
    Retry,
    /// The timeout passed.
    TimedOut,
    /// The receiver is gone.
    Closed,
    /// Polling failed with this error.
    Failed(Errno),
    /// The pipe can be written.
    Writable,
}

/// Some of the hang-up or error events are set.
pub open spec fn hung_up(revents: i16) -> bool {
    revents & (POLLHUP | POLLERR | POLLRDHUP) != 0
}

/// The writable event is set.
pub open spec fn writable(revents: i16) -> bool {
    revents & POLLOUT != 0
}

/// What to do after `poll` returned `result` with the events `revents`; `errno` is the
/// thread's last error number, read when `result` is `-1`.
///
/// A positive result with neither a hang-up, an error nor writability reported never
/// happens; it is left out.
pub fn after_poll(result: i32, errno: Errno, revents: i16) -> (r: PollStep)
    requires
        result == -1 || result == 0 || hung_up(revents) || writable(revents),
    ensures
        result == -1 && (errno.0 == EINTR || errno.0 == EAGAIN) ==> r == PollStep::Retry,
        result == -1 && errno.0 == ETIMEDOUT ==> r == PollStep::TimedOut,
        result == -1 && errno.0 != EINTR && errno.0 != EAGAIN && errno.0 != ETIMEDOUT ==> r
            == PollStep::Failed(errno),
        result == 0 ==> r == PollStep::TimedOut,
        result != -1 && result != 0 && hung_up(revents) ==> r == PollStep::Closed,
        result != -1 && result != 0 && !hung_up(revents) ==> r == PollStep::Writable,
{
    if result == -1 {
        if errno.0 == EINTR || errno.0 == EAGAIN {
            PollStep::Retry
        } else if errno.0 == ETIMEDOUT {
            PollStep::TimedOut
        } else {
            PollStep::Failed(errno)
        }
    } else if result == 0 {
        PollStep::TimedOut
    } else if revents & (POLLHUP | POLLERR | POLLRDHUP) != 0 {
        PollStep::Closed
    } else {
        PollStep::Writable
    }
}

/// The timeout, in milliseconds, to hand to `poll`: `-1` to block when no timeout was
/// given; otherwise the time that remains, saturated at `i32::MAX`. Returns `None` when
/// less than a millisecond remains (`remaining_millis` is `None` when the timeout has
/// already passed).
pub fn poll_timeout(has_timeout: bool, remaining_millis: Option<u128>) -> (r: Option<i32>)
    ensures
        !has_timeout ==> r == Some(-1i32),
        has_timeout && (remaining_millis is None || remaining_millis == Some(0u128)) ==> r is None,
        has_timeout && (remaining_millis matches Some(ms) && ms > 0) ==> r == Some(
            (if remaining_millis.unwrap() > i32::MAX { i32::MAX as int } else {
                remaining_millis.unwrap() as int
            }) as i32,
        ),
{
    if !has_timeout {
        return Some(-1);
    }
    match remaining_millis {
        Some(ms) if ms >= 1 => {
            if ms > (i32::MAX as u128) {
                Some(i32::MAX)
            } else {
                Some(ms as i32)
            }
        },
        _ => None,
    }
}

/// What a blocking sender does after writing its message to the pipe.
#[derive(Debug, Clone, Copy, PartialEq, Eq, Structural)]
pub enum WriteStep {
    /// The write was interrupted: write again.
    Retry,
    /// The receiver is gone.
    Closed,
    /// Writing failed with this error.
    Failed(Errno),
    /// The whole message was written.
    Done,
}

/// What to do after `write` returned `result` for a message of `len` bytes; `errno` is the
/// thread's last error number, read when `result` is `-1`.
///
/// A write of part of the message never happens for these small pipe messages; it is
/// left out.
pub fn after_write(result: isize, errno: Errno, len: usize) -> (r: WriteStep)
    requires
        result == -1 || result == len,
    ensures
        result == -1 && errno.0 == EINTR ==> r == WriteStep::Retry,
        result == -1 && errno.0 == EPIPE ==> r == WriteStep::Closed,
        result == -1 && errno.0 != EINTR && errno.0 != EPIPE ==> r == WriteStep::Failed(errno),
        result != -1 ==> r == WriteStep::Done,
{
    if result == -1 {
        if errno.0 == EINTR {
            WriteStep::Retry
        } else if errno.0 == EPIPE {
            WriteStep::Closed
        } else {
            WriteStep::Failed(errno)
        }
    } else {
        WriteStep::Done
    }
}

/// What an asynchronous sender does after writing its message to the pipe.
#[derive(Debug, Clone, Copy, PartialEq, Eq, Structural)]
pub enum AsyncWriteStep {
    /// The write was interrupted: yield, then write again unless the timeout passed.
    Interrupted,
    /// The write would block: wait until the pipe is writable again.
    WouldBlock,
    /// The receiver is gone.
    Closed,
    /// Writing failed with this error.
    Failed(Errno),
    /// The whole message was written.
    Done,
}

/// What to do after a non-blocking `write` returned `result` for a message of `len` bytes;
/// `errno` is the thread's last error number, read when `result` is `-1`.
pub fn after_async_write(result: isize, errno: Errno, len: usize) -> (r: AsyncWriteStep)
    requires
        result == -1 || result == len,
    ensures
        result == -1 && errno.0 == EINTR ==> r == AsyncWriteStep::Interrupted,
        result == -1 && (errno.0 == EWOULDBLOCK || errno.0 == EAGAIN) ==> r
            == AsyncWriteStep::WouldBlock,
        result == -1 && errno.0 == EPIPE ==> r == AsyncWriteStep::Closed,
        result == -1 && errno.0 != EINTR && errno.0 != EWOULDBLOCK && errno.0 != EAGAIN
            && errno.0 != EPIPE ==> r == AsyncWriteStep::Failed(errno),
        result != -1 ==> r == AsyncWriteStep::Done,
{
    if result == -1 {
        if errno.0 == EINTR {
            AsyncWriteStep::Interrupted
        } else if errno.0 == EWOULDBLOCK || errno.0 == EAGAIN {
            AsyncWriteStep::WouldBlock
        } else if errno.0 == EPIPE {
            AsyncWriteStep::Closed
        } else {
            AsyncWriteStep::Failed(errno)
        }
    } else {
        AsyncWriteStep::Done
    }
}

} // verus!
