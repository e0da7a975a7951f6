use gulf::capture::memory::{cached_page_size, page_size_from_sysconf, PageSizeError};
use gulf::capture::screen::{CursorMode, CursorModes, PersistMode, SelectSources};
use gulf::hint::{likely, unlikely};
use gulf::ptr::{CStrMetadata, CStrMetadataError};
use gulf::ty::AssertSame;
use gulf::video::PixelFormat;

#[test]
fn hints_return_their_argument() {
    assert!(likely(true));
    assert!(!likely(false));
    assert!(unlikely(true));
    assert!(!unlikely(false));
    assert_eq!(gulf::hint::must_use(17), 17);
    assert_eq!(gulf::hint::must_use("text"), "text");
}

#[test]
fn assert_same_types() {
    let _: AssertSame<u32, u32> = AssertSame::new();
    let _: AssertSame<i32, i32> = AssertSame::of::<i32, i32>();
    let x = 5u8;
    let _: AssertSame<u8, u8> = AssertSame::of_val(Some(&x), None);
    let _: AssertSame = AssertSame::default();
}

#[test]
fn pixel_format_default() {
    assert_eq!(PixelFormat::default(), PixelFormat::Nv12);
}

#[test]
fn cstr_metadata() {
    let m = CStrMetadata::new(12);
    assert_eq!(m.get(), Some(12));
    assert_eq!(CStrMetadata::from_unit(()), None);
    assert_eq!(usize::try_from(m), Ok(12));
    assert_eq!(CStrMetadata::from(3usize).get(), Some(3));
    assert_eq!(
        CStrMetadataError::IsThin.description(),
        Some("`CStr` is a thin pointer in a context where it shouldn't be")
    );
    let error = u8::try_from(300u32).unwrap_err();
    assert_eq!(CStrMetadataError::from(error), CStrMetadataError::TryFromInt(error));
    assert_eq!(CStrMetadataError::TryFromInt(error).description(), None);
}

#[test]
fn page_size() {
    assert_eq!(page_size_from_sysconf(4096).unwrap().get(), 4096);
    assert_eq!(page_size_from_sysconf(-1), Err(PageSizeError::Os));
    assert_eq!(page_size_from_sysconf(4095), Err(PageSizeError::NotPowerOfTwo));
    assert_eq!(page_size_from_sysconf(0), Err(PageSizeError::NotPowerOfTwo));
    assert_eq!(cached_page_size(0), None);
    assert_eq!(cached_page_size(16384).unwrap().get(), 16384);
}

#[test]
fn select_sources_choices() {
    let select = SelectSources::default();
    assert!(select.show_cursor && select.allow_windows && select.allow_virtual);
    assert!(!select.allow_multiple && !select.persist_session);
    assert_eq!(select.source_types().bits(), 0b111);
    assert_eq!(select.persist_mode(), PersistMode::DoNot);
    let all = CursorModes::from_bits_truncate(0b111);
    assert_eq!(select.choose_cursor_mode(all), CursorMode::Embedded);
    assert_eq!(select.choose_cursor_mode(CursorModes::from_bits_truncate(0b101)), CursorMode::Metadata);
    assert_eq!(select.choose_cursor_mode(CursorModes::from_bits_truncate(0b001)), CursorMode::Hidden);
    let mut hidden = select;
    hidden.show_cursor = false;
    hidden.persist_session = true;
    hidden.allow_windows = false;
    assert_eq!(hidden.choose_cursor_mode(all), CursorMode::Metadata);
    assert_eq!(hidden.persist_mode(), PersistMode::ExplicitlyRevoked);
    assert_eq!(hidden.source_types().bits(), 0b101);
    assert_eq!(CursorModes::from_bits_truncate(0xFF).bits(), 0b111);
    assert!(CursorModes::from_cache(0).is_none());
    assert_eq!(CursorModes::from_cache(0b110).unwrap().bits(), 0b110);
    assert!(all.contains(CursorMode::Hidden));
}
