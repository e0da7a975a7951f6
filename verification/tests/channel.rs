use gulf::capture::channel::{
    after_async_write, after_poll, after_write, poll_timeout, AsyncWriteStep, PollStep, SendError,
    WriteStep, POLLERR, POLLHUP, POLLOUT, POLLRDHUP,
};
use gulf::platform::errno::Errno;
use std::io;

#[test]
fn send_error_map() {
    let e = SendError::Closed(Some(3)).map(|x| x * 2);
    assert!(matches!(e, SendError::Closed(Some(6))));
    let e: SendError<u8> = SendError::TimedOut(None::<u8>).map(|x| x + 1);
    assert!(matches!(e, SendError::TimedOut(None)));
    let e = SendError::Other(Some([1u8]), io::Error::from_raw_os_error(5)).map(|[x]| x);
    match e {
        SendError::Other(Some(1), error) => assert_eq!(error.raw_os_error(), Some(5)),
        _ => panic!("wrong variant"),
    }
}

#[test]
fn send_error_and_then() {
    let e = SendError::TimedOut(Some(4)).and_then(|x| if x > 3 { Some(x) } else { None });
    assert!(matches!(e, SendError::TimedOut(Some(4))));
    let e = SendError::Closed(Some(2)).and_then(|x| if x > 3 { Some(x) } else { None });
    assert!(matches!(e, SendError::Closed(None)));
}

#[test]
fn send_error_access() {
    let mut e = SendError::Closed(Some(10));
    assert_eq!(e.get(), Some(&10));
    if let Some(x) = e.get_mut() {
        *x = 11;
    }
    assert_eq!(e.as_slice(), &[11]);
    e.as_slice_mut()[0] = 12;
    assert_eq!(e.get(), Some(&12));
    let mut none: SendError<u8> = SendError::TimedOut(None);
    assert_eq!(none.get(), None);
    assert!(none.get_mut().is_none());
    assert!(none.as_slice().is_empty());
    assert!(none.as_slice_mut().is_empty());
}

#[test]
fn send_error_description() {
    assert_eq!(SendError::Closed(None::<u8>).description(), "channel has closed");
    assert_eq!(SendError::TimedOut(None::<u8>).description(), "write exceeded timeout");
    assert_eq!(
        SendError::Other(None::<u8>, io::Error::from_raw_os_error(1)).description(),
        "an unknown error has occurred"
    );
}

#[test]
fn poll_steps() {
    assert_eq!(after_poll(-1, Errno(4), 0), PollStep::Retry);
    assert_eq!(after_poll(-1, Errno(11), 0), PollStep::Retry);
    assert_eq!(after_poll(-1, Errno(110), 0), PollStep::TimedOut);
    assert_eq!(after_poll(-1, Errno(9), 0), PollStep::Failed(Errno(9)));
    assert_eq!(after_poll(0, Errno(0), 0), PollStep::TimedOut);
    assert_eq!(after_poll(1, Errno(0), POLLHUP), PollStep::Closed);
    assert_eq!(after_poll(1, Errno(0), POLLERR | POLLOUT), PollStep::Closed);
    assert_eq!(after_poll(1, Errno(0), POLLRDHUP), PollStep::Closed);
    assert_eq!(after_poll(1, Errno(0), POLLOUT), PollStep::Writable);
}

#[test]
fn poll_timeouts() {
    assert_eq!(poll_timeout(false, None), Some(-1));
    assert_eq!(poll_timeout(true, None), None);
    assert_eq!(poll_timeout(true, Some(0)), None);
    assert_eq!(poll_timeout(true, Some(250)), Some(250));
    assert_eq!(poll_timeout(true, Some(u128::MAX)), Some(i32::MAX));
    assert_eq!(poll_timeout(true, Some(i32::MAX as u128 + 1)), Some(i32::MAX));
}

#[test]
fn write_steps() {
    assert_eq!(after_write(8, Errno(0), 8), WriteStep::Done);
    assert_eq!(after_write(-1, Errno(4), 8), WriteStep::Retry);
    assert_eq!(after_write(-1, Errno(32), 8), WriteStep::Closed);
    assert_eq!(after_write(-1, Errno(5), 8), WriteStep::Failed(Errno(5)));
    assert_eq!(after_async_write(8, Errno(0), 8), AsyncWriteStep::Done);
    assert_eq!(after_async_write(-1, Errno(4), 8), AsyncWriteStep::Interrupted);
    assert_eq!(after_async_write(-1, Errno(11), 8), AsyncWriteStep::WouldBlock);
    assert_eq!(after_async_write(-1, Errno(32), 8), AsyncWriteStep::Closed);
    assert_eq!(after_async_write(-1, Errno(28), 8), AsyncWriteStep::Failed(Errno(28)));
}
