use relm_bar::text::{decimal_string, last_segment, parse_i32, str_contains};

#[test]
fn decimal_string_matches_to_string() {
    for v in [0i32, 7, 10, 42, 100, -1, -35, 2147483647, -2147483648] {
        assert_eq!(decimal_string(v), v.to_string());
    }
}

#[test]
fn parse_i32_accepts_signed_decimals() {
    assert_eq!(parse_i32("12"), Some(12));
    assert_eq!(parse_i32("-12"), Some(-12));
    assert_eq!(parse_i32("+7"), Some(7));
    assert_eq!(parse_i32("007"), Some(7));
    assert_eq!(parse_i32("-0"), Some(0));
    assert_eq!(parse_i32("2147483647"), Some(2147483647));
    assert_eq!(parse_i32("-2147483648"), Some(-2147483648));
}

#[test]
fn parse_i32_rejects_what_std_rejects() {
    for s in ["", "-", "+", "1a", " 1", "1 ", "2147483648", "-2147483649", "99999999999", "++1", "٣"] {
        assert_eq!(parse_i32(s), None, "{s}");
        assert_eq!(parse_i32(s), s.parse::<i32>().ok(), "{s}");
    }
}

#[test]
fn decimal_roundtrip_on_samples() {
    for v in [0i32, 1, -1, 9, 10, -10, 123456, -2147483648, 2147483647] {
        assert_eq!(parse_i32(&decimal_string(v)), Some(v));
    }
}

#[test]
fn str_contains_finds_runs() {
    assert!(str_contains("[]=", "[]="));
    assert!(str_contains("<><>", "><>"));
    assert!(str_contains("a[M]b", "[M]"));
    assert!(str_contains("abc", ""));
    assert!(str_contains("", ""));
    assert!(!str_contains(" ? ", "[]="));
    assert!(!str_contains("[]", "[]="));
    assert!(!str_contains("ab", "abc"));
}

#[test]
fn last_segment_is_last_split_item() {
    for s in ["", "abc", "a_b", "/dev/shm/bar_3", "x_", "_y", "a__b"] {
        assert_eq!(last_segment(s, '_'), s.split('_').last().unwrap(), "{s}");
    }
}
