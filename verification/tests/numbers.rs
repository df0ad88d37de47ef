use rust_flipit::number::{int_to_string, parse_i32_range, parse_isize_range, parse_u32_range};
use rust_flipit::text::{chars_of, str_equal, str_less, white_space};

fn chars(s: &str) -> Vec<char> {
    chars_of(s)
}

#[test]
fn integers_in_decimal() {
    assert_eq!(int_to_string(0), "0");
    assert_eq!(int_to_string(7), "7");
    assert_eq!(int_to_string(-42), "-42");
    assert_eq!(int_to_string(i64::MIN), i64::MIN.to_string());
    assert_eq!(int_to_string(i64::MAX), i64::MAX.to_string());
}

#[test]
fn parse_matches_std() {
    for s in ["0", "-0", "+0", "12", "-12", "+", "-", "", "4294967295", "4294967296", "2147483647",
        "2147483648", "-2147483648", "-2147483649", "1a", " 1", "99999999999999999999999", "٣"] {
        let v = chars(s);
        assert_eq!(parse_i32_range(&v, 0, v.len()), s.parse::<i32>().ok(), "i32 {s:?}");
        assert_eq!(parse_u32_range(&v, 0, v.len()), s.parse::<u32>().ok(), "u32 {s:?}");
        assert_eq!(parse_isize_range(&v, 0, v.len()), s.parse::<isize>().ok(), "isize {s:?}");
    }
}

#[test]
fn string_order_and_equality() {
    assert!(str_less("a", "b"));
    assert!(str_less("a", "ab"));
    assert!(!str_less("ab", "a"));
    assert!(!str_less("a", "a"));
    assert!(str_less("Z", "a"));
    assert!(str_equal("abc", "abc"));
    assert!(!str_equal("abc", "abd"));
    assert!(!str_equal("abc", "ab"));
}

#[test]
fn white_space_matches_std() {
    for c in ['\t', '\n', '\r', ' ', '\u{85}', '\u{a0}', '\u{2000}', '\u{3000}', 'a', '0', '\u{200b}', '\u{180e}'] {
        assert_eq!(white_space(c), c.is_whitespace(), "{c:?}");
    }
}
