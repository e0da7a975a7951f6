use gulf::platform::dma_buf::{
    dma_buf_access_begin_flags, dma_buf_access_end_flags, SyncOptions, SyncRights, DMA_BUF_BASE,
};
use gulf::platform::errno::Errno;

#[test]
fn rights_new() {
    assert_eq!(SyncRights::new(false, false), None);
    assert_eq!(SyncRights::new(true, false), Some(SyncRights::Read));
    assert_eq!(SyncRights::new(false, true), Some(SyncRights::Write));
    assert_eq!(SyncRights::new(true, true), Some(SyncRights::ReadWrite));
}

#[test]
fn rights_bits() {
    assert_eq!(SyncRights::from_bits(0), None);
    assert_eq!(SyncRights::from_bits(1), Some(SyncRights::Read));
    assert_eq!(SyncRights::from_bits(2), Some(SyncRights::Write));
    assert_eq!(SyncRights::from_bits(3), Some(SyncRights::ReadWrite));
    assert_eq!(SyncRights::from_bits(4), None);
    assert_eq!(SyncRights::from_bits(0xFF), None);
    for rights in [SyncRights::Read, SyncRights::Write, SyncRights::ReadWrite] {
        assert_eq!(SyncRights::from_bits(rights.bits()), Some(rights));
    }
}

#[test]
fn rights_permissions() {
    assert!(SyncRights::Read.can_read());
    assert!(!SyncRights::Read.can_write());
    assert!(!SyncRights::Write.can_read());
    assert!(SyncRights::Write.can_write());
    assert!(SyncRights::ReadWrite.can_read());
    assert!(SyncRights::ReadWrite.can_write());
}

#[test]
fn rights_union() {
    assert_eq!(SyncRights::Read | SyncRights::Write, SyncRights::ReadWrite);
    assert_eq!(SyncRights::Read | SyncRights::Read, SyncRights::Read);
    assert_eq!(SyncRights::Write | SyncRights::ReadWrite, SyncRights::ReadWrite);
    let mut rights = SyncRights::Write;
    rights |= SyncRights::Read;
    assert_eq!(rights, SyncRights::ReadWrite);
}

#[test]
fn options_flags() {
    assert_eq!(SyncOptions::Start(SyncRights::Read).to_flags(), 0b001);
    assert_eq!(SyncOptions::Start(SyncRights::ReadWrite).to_flags(), 0b011);
    assert_eq!(SyncOptions::End(SyncRights::Read).to_flags(), 0b101);
    assert_eq!(SyncOptions::End(SyncRights::Write).to_flags(), 0b110);
    assert_eq!(SyncOptions::End(SyncRights::ReadWrite).to_flags(), 0b111);
}

#[test]
fn options_union() {
    let start = SyncOptions::Start(SyncRights::Read);
    let end = SyncOptions::End(SyncRights::Write);
    assert_eq!(start | end, SyncOptions::End(SyncRights::ReadWrite));
    assert_eq!(start | SyncOptions::Start(SyncRights::Write), SyncOptions::Start(SyncRights::ReadWrite));
    assert_eq!(start | SyncRights::Write, SyncOptions::Start(SyncRights::ReadWrite));
    let mut options = end;
    options |= SyncRights::Read;
    assert_eq!(options, SyncOptions::End(SyncRights::ReadWrite));
    let mut options = start;
    options |= start;
    assert_eq!(options, start);
}

#[test]
fn access_flags() {
    assert_eq!(dma_buf_access_begin_flags(false, false), 0);
    assert_eq!(dma_buf_access_begin_flags(true, false), 1);
    assert_eq!(dma_buf_access_begin_flags(false, true), 2);
    assert_eq!(dma_buf_access_begin_flags(true, true), 3);
    assert_eq!(dma_buf_access_end_flags(false, false), 4);
    assert_eq!(dma_buf_access_end_flags(true, true), 7);
    assert_eq!(DMA_BUF_BASE, b'b');
}

#[test]
fn ioctl_status() {
    let last = Errno(9);
    assert_eq!(SyncRights::import_sync_status(0, last), Ok(()));
    assert_eq!(SyncRights::import_sync_status(-1, last), Err(last));
    assert_eq!(SyncRights::export_sync_status(0, 7, last), Ok(7));
    assert_eq!(SyncRights::export_sync_status(0, -1, last), Err(Errno(9)));
    assert_eq!(SyncRights::export_sync_status(-1, 7, Errno(22)), Err(Errno(22)));
    assert_eq!(SyncOptions::sync_status(3, last), Ok(()));
    assert_eq!(SyncOptions::sync_status(-1, last), Err(last));
    assert_eq!(Errno::message_status(0, last), Ok(()));
    assert_eq!(Errno::message_status(34, last), Err(Errno(34)));
    assert_eq!(Errno::message_status(-1, last), Err(last));
    assert_eq!(Errno::from(4), Errno(4));
    assert_eq!(i32::from(Errno(4)), 4);
}
