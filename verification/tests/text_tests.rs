use pvc_migrator::text::{char_is_whitespace, chars_of, decimal_string, parse_trimmed_u64, push_decimal, push_hex_lower};

#[test]
fn decimal_renders_like_to_string() {
    for n in [0u64, 1, 9, 10, 99, 100, 12345, 1_000_000_007, u64::MAX - 1, u64::MAX] {
        assert_eq!(decimal_string(n), n.to_string());
    }
    assert_eq!(decimal_string(1234567890), "1234567890");
}

#[test]
fn push_decimal_appends() {
    let mut s = String::from("n=");
    push_decimal(&mut s, 405);
    assert_eq!(s, "n=405");
}

#[test]
fn hex_renders_like_format() {
    for n in [0u64, 1, 15, 16, 255, 256, 0xabcdef, 0x100_0000, u64::MAX] {
        let mut s = String::new();
        push_hex_lower(&mut s, n);
        assert_eq!(s, format!("{:x}", n));
    }
}

#[test]
fn chars_of_keeps_order() {
    assert_eq!(chars_of("a\u{e9}\u{2014}z"), vec!['a', '\u{e9}', '\u{2014}', 'z']);
    assert_eq!(chars_of(""), Vec::<char>::new());
}

#[test]
fn whitespace_matches_std_for_every_char() {
    for code in 0u32..=0x10ffff {
        if let Some(c) = char::from_u32(code) {
            assert_eq!(char_is_whitespace(c), c.is_whitespace(), "char {code:#x}");
        }
    }
}

#[test]
fn parse_examples() {
    assert_eq!(parse_trimmed_u64("42"), Some(42));
    assert_eq!(parse_trimmed_u64("  42\n"), Some(42));
    assert_eq!(parse_trimmed_u64("+7"), Some(7));
    assert_eq!(parse_trimmed_u64("+"), None);
    assert_eq!(parse_trimmed_u64("-1"), None);
    assert_eq!(parse_trimmed_u64("-0"), None);
    assert_eq!(parse_trimmed_u64(""), None);
    assert_eq!(parse_trimmed_u64(" \t\n"), None);
    assert_eq!(parse_trimmed_u64("1 2"), None);
    assert_eq!(parse_trimmed_u64("12a"), None);
    assert_eq!(parse_trimmed_u64("0042"), Some(42));
    assert_eq!(parse_trimmed_u64("\u{a0}5\u{3000}"), Some(5));
    assert_eq!(parse_trimmed_u64("18446744073709551615"), Some(u64::MAX));
    assert_eq!(parse_trimmed_u64("18446744073709551616"), None);
    assert_eq!(parse_trimmed_u64("99999999999999999999x"), None);
}

#[test]
fn parse_matches_std() {
    let samples = [
        "0", "1", "+1", "++1", "+-1", " 17 ", "\n\n300\r\n", "1_000", "1.5", "0x10", "\u{85}8\u{2028}",
        "18446744073709551615", "018446744073709551615", "28446744073709551615", "\u{1680}", "٣",
        "+0", "00", "12345678901234567890123",
    ];
    for s in samples {
        assert_eq!(parse_trimmed_u64(s), s.trim().parse::<u64>().ok(), "input {s:?}");
    }
}

#[test]
fn decimal_parses_back_concrete() {
    for n in [0u64, 7, 65536, 1 << 40, u64::MAX] {
        assert_eq!(parse_trimmed_u64(&decimal_string(n)), Some(n));
        assert_eq!(parse_trimmed_u64(&format!("{}\n", decimal_string(n))), Some(n));
    }
}
