use record_to_gif::text::{decimal_string, parse_trimmed_u32, text_contains};
use record_to_gif::CaptureRegion;

#[test]
fn decimal_renders_numbers() {
    assert_eq!(decimal_string(0), "0");
    assert_eq!(decimal_string(7), "7");
    assert_eq!(decimal_string(10), "10");
    assert_eq!(decimal_string(4096), "4096");
    assert_eq!(decimal_string(u64::MAX), "18446744073709551615");
}

#[test]
fn parse_accepts_digits_with_space_and_plus() {
    assert_eq!(parse_trimmed_u32("42"), Some(42));
    assert_eq!(parse_trimmed_u32("  42\t\n"), Some(42));
    assert_eq!(parse_trimmed_u32("+7"), Some(7));
    assert_eq!(parse_trimmed_u32("007"), Some(7));
    assert_eq!(parse_trimmed_u32("\u{3000}12\u{a0}"), Some(12));
    assert_eq!(parse_trimmed_u32("4294967295"), Some(u32::MAX));
}

#[test]
fn parse_refuses_what_from_str_refuses() {
    assert_eq!(parse_trimmed_u32(""), None);
    assert_eq!(parse_trimmed_u32("   "), None);
    assert_eq!(parse_trimmed_u32("+"), None);
    assert_eq!(parse_trimmed_u32("-1"), None);
    assert_eq!(parse_trimmed_u32("1 2"), None);
    assert_eq!(parse_trimmed_u32("12a"), None);
    assert_eq!(parse_trimmed_u32("++1"), None);
    assert_eq!(parse_trimmed_u32("4294967296"), None);
    assert_eq!(parse_trimmed_u32("99999999999999999999"), None);
}

#[test]
fn parse_agrees_with_std() {
    for s in ["0", " 5 ", "+0", "-0", "65536", "4294967295", "4294967296", " x", "\u{2003}9"] {
        assert_eq!(parse_trimmed_u32(s), s.trim().parse::<u32>().ok(), "input {:?}", s);
    }
}

#[test]
fn decimal_reads_back() {
    for n in [0u32, 1, 9, 10, 99, 100, 65535, 1_000_000, u32::MAX] {
        assert_eq!(parse_trimmed_u32(&decimal_string(n as u64)), Some(n));
    }
}

#[test]
fn contains_finds_runs() {
    assert!(text_contains("error: not authorized to capture", "not authorized"));
    assert!(text_contains("abc", ""));
    assert!(text_contains("abc", "abc"));
    assert!(!text_contains("ab", "abc"));
    assert!(!text_contains("not authorised", "not authorized"));
}

#[test]
fn region_needs_positive_sides() {
    let r = CaptureRegion::new(1, 2, 3, 4).unwrap();
    assert_eq!((r.x, r.y, r.width, r.height), (1, 2, 3, 4));
    assert_eq!(CaptureRegion::new(1, 2, 0, 4).unwrap_err(), "宽高必须大于 0");
    assert_eq!(CaptureRegion::new(1, 2, 3, 0).unwrap_err(), "宽高必须大于 0");
}
