use gulf::mem::Align;
use gulf::platform::errno::Errno as PlatformErrno;
use gulf::sys::details::Details;
use gulf::sys::errno::Errno;
use gulf::sys::syscall::{SysResult, SysWord};
use std::alloc::Layout;
use std::io::ErrorKind;

#[test]
fn error_kinds_of_error_numbers() {
    assert_eq!(Errno(32).error_kind(), ErrorKind::BrokenPipe);
    assert_eq!(Errno(2).error_kind(), ErrorKind::NotFound);
    assert_eq!(PlatformErrno(11).error_kind(), ErrorKind::WouldBlock);
    assert_eq!(PlatformErrno(22).error_kind(), ErrorKind::InvalidInput);
}

#[test]
fn as_error_carries_the_error_number() {
    let error = SysWord::from_isize(-32).as_error().unwrap_err();
    assert_eq!(error.raw_os_error(), Some(32));
    assert_eq!(SysWord::from_usize(5).as_error().unwrap(), SysWord::from_usize(5));
}

#[test]
fn words_are_determined_by_their_value() {
    assert_eq!(SysWord::from_i32(7), SysWord::from_u32(7));
    assert_eq!(SysResult::<3>::empty(), SysResult::<3>::default());
}

#[test]
fn from_layout_is_the_layout_alignment() {
    let layout = Layout::from_size_align(24, 8).unwrap();
    assert_eq!(Align::from_layout(layout).get(), 8);
    assert_eq!(Align::from_layout(Layout::new::<u16>()).get(), 2);
}

#[test]
fn layout_with_size_has_that_size_and_alignment() {
    let align = Align::new(16).unwrap();
    let layout = align.layout_with_size(40).unwrap();
    assert_eq!(layout.size(), 40);
    assert_eq!(layout.align(), 16);
}

#[test]
fn aligns_and_masks_are_in_bijection() {
    for shift in 0..usize::BITS {
        let align = Align::new(1usize << shift).unwrap();
        assert_eq!(Align::from_mask(align.mask()), align);
        let mask = align.mask();
        assert!(Align::from_mask(mask).mask() == mask);
    }
}

#[test]
fn lossy_pieces_are_non_empty() {
    let details = Details::new(b"\xff\xfeok\xffx");
    assert_eq!(details.len(), 5);
    for i in 0..details.len() {
        assert!(!details.piece(i).is_empty());
    }
    assert_eq!(details.text(), String::from_utf8_lossy(b"\xff\xfeok\xffx"));
}
