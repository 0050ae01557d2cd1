use ups_monitor::text::{decimal_string, is_blank_str, normalize_str, parse_u32, parse_u8};
use ups_monitor::time::Duration;

#[test]
fn numbers_are_read_whole_or_from_parentheses() {
    assert_eq!(parse_u32(" 42 "), Some(42));
    assert_eq!(parse_u32("+7"), Some(7));
    assert_eq!(parse_u32("battery(5)"), Some(5));
    assert_eq!(parse_u32("x(1) y( 9 )"), Some(9));
    assert_eq!(parse_u32("(1)(2"), None);
    assert_eq!(parse_u32("-1"), None);
    assert_eq!(parse_u32("4294967295"), Some(u32::MAX));
    assert_eq!(parse_u32("4294967296"), None);
    assert_eq!(parse_u32(""), None);
    assert_eq!(parse_u8("255"), Some(255));
    assert_eq!(parse_u8("256"), None);
}

#[test]
fn rendered_numbers_read_back() {
    for n in [0u32, 7, 10, 99, 12345, u32::MAX] {
        assert_eq!(parse_u32(&decimal_string(n as u64)), Some(n));
    }
}

#[test]
fn normalization_keeps_lowercase_alphanumerics() {
    assert_eq!(
        normalize_str(" \"Battery_Low(3)\" ").into_iter().collect::<String>(),
        "batterylow3"
    );
    assert_eq!(
        normalize_str("  \"onBattery\"\t"),
        normalize_str("onBattery")
    );
    assert!(normalize_str(" \"--\" ").is_empty());
}

#[test]
fn blank_means_only_whitespace() {
    assert!(is_blank_str(""));
    assert!(is_blank_str(" \t\n\u{a0}"));
    assert!(!is_blank_str(" a "));
}

#[test]
fn durations_count_nanoseconds() {
    let d = Duration::new(1, 1_500_000_000);
    assert_eq!(d.as_secs(), 2);
    assert_eq!(d.subsec_nanos(), 500_000_000);
    assert!(Duration::from_secs(0).is_zero());
    assert_eq!(
        Duration::from_secs(5).saturating_sub(Duration::from_secs(7)),
        Duration::from_secs(0)
    );
    assert!(Duration::from_secs(5).at_least(&Duration::new(4, 999_999_999)));
}
