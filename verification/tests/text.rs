use wallsplash::text::is_jpeg_content_type;
use wallsplash::text::parse_u32;
use wallsplash::text::u64_to_string;

#[test]
fn renders_decimal_numerals() {
    assert_eq!(u64_to_string(0), "0");
    assert_eq!(u64_to_string(7), "7");
    assert_eq!(u64_to_string(10), "10");
    assert_eq!(u64_to_string(1234), "1234");
    assert_eq!(u64_to_string(4294967295), "4294967295");
}

#[test]
fn parsing_a_rendered_numeral_gives_the_number_back() {
    for n in [0u32, 1, 9, 10, 99, 1800, 86400, u32::MAX] {
        assert_eq!(parse_u32(&u64_to_string(n as u64)), Some(n));
    }
}

#[test]
fn parses_plain_numerals() {
    assert_eq!(parse_u32("0"), Some(0));
    assert_eq!(parse_u32("42"), Some(42));
    assert_eq!(parse_u32("007"), Some(7));
    assert_eq!(parse_u32("1800"), Some(1800));
    assert_eq!(parse_u32("4294967295"), Some(u32::MAX));
}

#[test]
fn parses_a_leading_plus_sign() {
    assert_eq!(parse_u32("+10"), Some(10));
    assert_eq!(parse_u32("+0"), Some(0));
}

#[test]
fn rejects_what_is_not_a_u32_numeral() {
    assert_eq!(parse_u32(""), None);
    assert_eq!(parse_u32("+"), None);
    assert_eq!(parse_u32("-1"), None);
    assert_eq!(parse_u32("1a"), None);
    assert_eq!(parse_u32(" 1"), None);
    assert_eq!(parse_u32("1 "), None);
    assert_eq!(parse_u32("4294967296"), None);
    assert_eq!(parse_u32("99999999999999999999"), None);
}

#[test]
fn accepts_jpeg_content_types() {
    assert!(is_jpeg_content_type(b"image/jpeg"));
    assert!(is_jpeg_content_type(b"IMAGE/JPEG"));
    assert!(is_jpeg_content_type(b"Image/Jpeg"));
    assert!(is_jpeg_content_type(b"image/jpeg; charset=binary"));
    assert!(is_jpeg_content_type(b" image/jpeg "));
    assert!(is_jpeg_content_type(b"image/jpeg ;q=1"));
}

#[test]
fn rejects_other_content_types() {
    assert!(!is_jpeg_content_type(b""));
    assert!(!is_jpeg_content_type(b"image/png"));
    assert!(!is_jpeg_content_type(b"image/jpegx"));
    assert!(!is_jpeg_content_type(b"text/html; charset=utf-8"));
    assert!(!is_jpeg_content_type(b"application/octet-stream"));
    assert!(!is_jpeg_content_type(b"image/jpe"));
    assert!(!is_jpeg_content_type(b"jpeg"));
}
