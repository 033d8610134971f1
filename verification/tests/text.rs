use led_service2::text::{contains, ends_with_ascii_ignore_case, eq_ignore_ascii_case, lower, parse_unsigned};

#[test]
fn ascii_case_folding() {
    assert_eq!(lower(b'A'), b'a');
    assert_eq!(lower(b'z'), b'z');
    assert_eq!(lower(b'@'), b'@');
    assert!(eq_ignore_ascii_case(b"Image/GIF", b"image/gif"));
    assert!(!eq_ignore_ascii_case(b"image/gi", b"image/gif"));
    assert!(ends_with_ascii_ignore_case(b"a.PnG", b".png"));
    assert!(!ends_with_ascii_ignore_case(b"g", b".png"));
}

#[test]
fn substring_search() {
    assert!(contains(b"image/x-portable-pixmap", b"pixmap"));
    assert!(contains(b"abc", b""));
    assert!(!contains(b"ab", b"abc"));
    assert!(!contains(b"aab", b"abb"));
}

#[test]
fn unsigned_numbers_within_a_maximum() {
    assert_eq!(parse_unsigned("0", 10), Some(0));
    assert_eq!(parse_unsigned("+10", 10), Some(10));
    assert_eq!(parse_unsigned("11", 10), None);
    assert_eq!(parse_unsigned("1_0", 100), None);
    assert_eq!(parse_unsigned("99999999999999999999999", u64::MAX), None);
}
