use gulf::platform::errno::{Errno, MESSAGE_BUFFER_LEN};
use gulf::sys::details::{debug_str, Alignment, Details};

#[test]
fn details_of_valid_message_is_the_message() {
    let details = Details::new(b"Operation not permitted");
    assert_eq!(details.len(), 1);
    assert_eq!(details.text(), "Operation not permitted");
}

#[test]
fn details_replace_invalid_bytes() {
    let details = Details::new(b"ab\xffcd");
    assert_eq!(details.len(), 3);
    assert_eq!(details.piece(0), "ab");
    assert_eq!(details.piece(1), "\u{FFFD}");
    assert_eq!(details.piece(2), "cd");
    assert_eq!(details.text(), "ab\u{FFFD}cd");
}

#[test]
fn details_of_leading_invalid_bytes_skip_the_empty_piece() {
    let details = Details::new(b"\xff\xfeok");
    assert_eq!(details.text(), "\u{FFFD}\u{FFFD}ok");
    assert_eq!(details.piece(0), "\u{FFFD}");
}

#[test]
fn details_of_nothing_are_empty() {
    let details = Details::new(b"");
    assert_eq!(details.len(), 0);
    assert_eq!(details.text(), "");
}

#[test]
fn with_max_takes_the_first_characters() {
    let details = Details::new(b"ab\xffcd");
    assert_eq!(details.with_max(0), (0, String::new()));
    assert_eq!(details.with_max(2), (2, "ab".to_string()));
    assert_eq!(details.with_max(3), (3, "ab\u{FFFD}".to_string()));
    assert_eq!(details.with_max(4), (4, "ab\u{FFFD}c".to_string()));
    assert_eq!(details.with_max(100), (5, "ab\u{FFFD}cd".to_string()));
}

#[test]
fn with_max_counts_characters_not_bytes() {
    let details = Details::new("héllo".as_bytes());
    assert_eq!(details.with_max(2), (2, "hé".to_string()));
}

#[test]
fn display_matches_str_formatting() {
    let details = Details::new(b"Hello");
    for (precision, width, align) in [
        (None, None, None),
        (Some(3), None, None),
        (None, Some(8), None),
        (None, Some(8), Some(Alignment::Left)),
        (None, Some(8), Some(Alignment::Right)),
        (None, Some(8), Some(Alignment::Center)),
        (Some(2), Some(7), Some(Alignment::Center)),
        (None, Some(3), Some(Alignment::Right)),
    ] {
        let expected = match (precision, width, align) {
            (None, None, _) => format!("{}", "Hello"),
            (Some(p), None, _) => format!("{:.p$}", "Hello"),
            (None, Some(w), None | Some(Alignment::Left)) => format!("{:*<w$}", "Hello"),
            (None, Some(w), Some(Alignment::Right)) => format!("{:*>w$}", "Hello"),
            (None, Some(w), Some(Alignment::Center)) => format!("{:*^w$}", "Hello"),
            (Some(p), Some(w), Some(Alignment::Center)) => format!("{:*^w$.p$}", "Hello"),
            _ => unreachable!(),
        };
        assert_eq!(details.display(precision, width, align, '*'), expected);
    }
}

#[test]
fn display_pads_exact_values() {
    let details = Details::new(b"ab");
    assert_eq!(details.display(None, Some(5), Some(Alignment::Center), '-'), "-ab--");
    assert_eq!(details.display(None, Some(5), None, ' '), "ab   ");
    assert_eq!(details.display(Some(1), Some(3), Some(Alignment::Right), '.'), "..a");
}

#[test]
fn debug_str_escapes_as_str_debug() {
    assert_eq!(debug_str("plain"), "plain");
    assert_eq!(debug_str("a\"b\\c"), "a\\\"b\\\\c");
    assert_eq!(debug_str("line\nbreak\ttab"), "line\\nbreak\\ttab");
    assert_eq!(debug_str("é"), "é");
    assert_eq!(debug_str("\u{7f}"), "\\u{7f}");
    assert_eq!(debug_str("\u{301}"), "\\u{301}");
}

#[test]
fn details_debug_is_quoted() {
    let details = Details::new(b"a\"b\xff");
    assert_eq!(details.debug(), "\"a\\\"b\u{FFFD}\"");
    assert_eq!(details.debug(), format!("{:?}", "a\"b\u{FFFD}"));
}

#[test]
fn format_message_of_valid_text() {
    assert_eq!(Errno::format_message(b"No such file or directory", MESSAGE_BUFFER_LEN), Ok("No such file or directory".to_string()));
    assert_eq!(Errno::format_message(b"", 0), Ok(String::new()));
    assert_eq!(Errno::format_message(b"abcdef", 2), Ok("abcdef".to_string()));
}

#[test]
fn format_message_replaces_invalid_bytes() {
    assert_eq!(Errno::format_message(b"Bad\xff", MESSAGE_BUFFER_LEN), Ok("Bad\u{FFFD}".to_string()));
    assert_eq!(Errno::format_message(b"\xffabc", 6), Ok("\u{FFFD}abc".to_string()));
}

#[test]
fn format_message_reports_erange_when_the_scratch_buffer_is_small() {
    assert_eq!(Errno::format_message(b"\xffabc", 5), Err(Errno(34)));
}
