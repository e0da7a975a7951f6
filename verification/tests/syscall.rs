use gulf::sys::errno::{Errno, EINVAL, MAX_ERRNO};
use gulf::sys::syscall::{NullPtrError, SysResult, SysWord};

#[test]
fn sysword_usize_and_isize() {
    let w = SysWord::from_usize(0xdead_beef);
    assert_eq!(w.as_usize(), 0xdead_beef);
    assert_eq!(SysWord::from_isize(-1).as_usize(), usize::MAX);
    assert_eq!(SysWord::from_usize(usize::MAX).as_isize(), -1);
    assert_eq!(SysWord::from_isize(isize::MIN).as_isize(), isize::MIN);
    assert_eq!(usize::from(SysWord::from(7usize)), 7);
    assert_eq!(isize::from(SysWord::from(-7isize)), -7);
}

#[test]
fn sysword_u32_and_i32() {
    assert_eq!(SysWord::from_u32(u32::MAX).as_usize(), u32::MAX as usize);
    assert_eq!(SysWord::from_u32(5).as_u32(), Some(5));
    assert_eq!(SysWord::from_usize(u32::MAX as usize + 1).as_u32(), None);
    assert_eq!(SysWord::from_i32(-1).as_isize(), -1);
    assert_eq!(SysWord::from_i32(-1).as_i32(), Some(-1));
    assert_eq!(SysWord::from_i32(i32::MIN).as_i32(), Some(i32::MIN));
    assert_eq!(SysWord::from_isize(i32::MAX as isize + 1).as_i32(), None);
    // Sign extension: on 64-bit targets `from_i32(-1)` differs from `from_u32(u32::MAX)`.
    assert_eq!(SysWord::from_i32(-1).as_usize(), usize::MAX);
    assert_eq!(SysWord::from(u32::MAX).as_usize(), u32::MAX as usize);
    assert_eq!(SysWord::from(-2i32).as_isize(), -2);
}

#[test]
fn sysword_u64_and_i64() {
    assert_eq!(SysWord::from_u64(12).unwrap().as_usize(), 12);
    assert_eq!(SysWord::from_u64(u64::MAX).is_some(), usize::BITS >= 64);
    assert_eq!(SysWord::from_usize(usize::MAX).as_u64(), Some(usize::MAX as u64));
    assert_eq!(SysWord::from_i64(-3).unwrap().as_isize(), -3);
    assert_eq!(SysWord::from_i64(i64::MIN).is_some(), isize::BITS >= 64);
    assert_eq!(SysWord::from_isize(-9).as_i64(), Some(-9));
}

#[test]
fn sysword_null_and_errors() {
    assert!(SysWord::from_usize(0).is_null());
    assert!(!SysWord::from_usize(8).is_null());
    assert_eq!(SysWord::from_isize(-1).as_errno(), Err(Errno(1)));
    assert_eq!(SysWord::from_isize(-4095).as_errno(), Err(Errno(4095)));
    let w = SysWord::from_isize(-4096);
    assert_eq!(w.as_errno(), Ok(w));
    let ok = SysWord::from_usize(3);
    assert_eq!(ok.as_errno(), Ok(ok));
    let error = SysWord::from_isize(-22).as_error().unwrap_err();
    assert_eq!(error.raw_os_error(), Some(22));
    assert_eq!(ok.as_error().unwrap(), ok);
}

#[test]
fn sysresult_empty() {
    let empty = SysResult::<2>::empty();
    assert_eq!(empty.error_flag, None);
    assert_eq!(empty.values, [SysWord::from_usize(0); 2]);
    assert_eq!(SysResult::<1>::empty().values[0].as_usize(), 0);
}

#[test]
fn null_pointer_error() {
    assert_eq!(Errno::from(NullPtrError), Errno(EINVAL));
    assert_eq!(NullPtrError.description(), "provided pointer was null");
}

#[test]
fn errno_to_syscall() {
    assert_eq!(Errno(1).to_syscall(), Err(-1));
    assert_eq!(Errno(4095).to_syscall(), Err(-4095));
    assert_eq!(Errno(4096).to_syscall(), Ok(()));
    assert_eq!(Errno(0).to_syscall(), Ok(()));
    assert_eq!(Errno(-5).to_syscall(), Ok(()));
    assert_eq!(MAX_ERRNO, 4095);
}

#[test]
fn errno_from_syscall() {
    assert_eq!(Errno::from_syscall(-1), Err(Errno(1)));
    assert_eq!(Errno::from_syscall(-4095), Err(Errno(4095)));
    assert_eq!(Errno::from_syscall(-4096), Ok(-4096));
    assert_eq!(Errno::from_syscall(0), Ok(0));
    assert_eq!(Errno::from_syscall(isize::MIN), Ok(isize::MIN));
    assert_eq!(Errno::from_syscall(42), Ok(42));
}

#[test]
fn errno_syscall_roundtrip() {
    for code in 1..=4095 {
        let value = Errno(code).to_syscall().unwrap_err();
        assert_eq!(Errno::from_syscall(value), Err(Errno(code)));
    }
}

#[test]
fn errno_details_status_and_conversions() {
    assert_eq!(Errno::details_status(0, Errno(9)), Ok(()));
    assert_eq!(Errno::details_status(34, Errno(9)), Err(Errno(34)));
    assert_eq!(Errno::details_status(-1, Errno(9)), Err(Errno(9)));
    assert_eq!(Errno::from(5), Errno(5));
    assert_eq!(i32::from(Errno(6)), 6);
}
