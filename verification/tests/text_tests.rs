use price_monitor::text::{
    chars_of, concat_str, contains_str, decimal_string, lex_le_str, on_off, owned, parse_unsigned,
    position_of, push_decimal, to_ascii_lower, trimmed, yes_no,
};

#[test]
fn decimal_strings() {
    assert_eq!(decimal_string(0), "0");
    assert_eq!(decimal_string(7), "7");
    assert_eq!(decimal_string(10), "10");
    assert_eq!(decimal_string(1234567890), "1234567890");
    assert_eq!(decimal_string(u64::MAX), u64::MAX.to_string());
    let mut s = String::from("n=");
    push_decimal(&mut s, 42);
    assert_eq!(s, "n=42");
}

#[test]
fn parse_unsigned_accepts_what_str_parse_accepts() {
    assert_eq!(parse_unsigned("0", u64::MAX), Some(0));
    assert_eq!(parse_unsigned("15", u64::MAX), Some(15));
    assert_eq!(parse_unsigned("+15", u64::MAX), Some(15));
    assert_eq!(parse_unsigned("007", u64::MAX), Some(7));
    assert_eq!(parse_unsigned("18446744073709551615", u64::MAX), Some(u64::MAX));
    assert_eq!(parse_unsigned("4294967295", u32::MAX as u64), Some(4294967295));
}

#[test]
fn parse_unsigned_refuses_what_str_parse_refuses() {
    for s in ["", "+", "-", "-1", "1.5", " 1", "1 ", "abc", "1a", "++1"] {
        assert_eq!(parse_unsigned(s, u64::MAX), None, "{s:?}");
        assert!(s.parse::<u64>().is_err(), "{s:?}");
    }
    assert_eq!(parse_unsigned("18446744073709551616", u64::MAX), None);
    assert_eq!(parse_unsigned("4294967296", u32::MAX as u64), None);
    assert!("4294967296".parse::<u32>().is_err());
}

#[test]
fn parse_unsigned_agrees_with_std() {
    for s in ["0", "1", "+1", "99999", "4294967295", "4294967296", "x", "", "+", "12x"] {
        assert_eq!(parse_unsigned(s, u32::MAX as u64), s.parse::<u32>().ok().map(|v| v as u64), "{s:?}");
        assert_eq!(parse_unsigned(s, u64::MAX), s.parse::<u64>().ok(), "{s:?}");
    }
}

#[test]
fn ascii_lowercase() {
    assert_eq!(to_ascii_lower('A'), 'a');
    assert_eq!(to_ascii_lower('Z'), 'z');
    assert_eq!(to_ascii_lower('s'), 's');
    assert_eq!(to_ascii_lower('@'), '@');
    assert_eq!(to_ascii_lower('['), '[');
    assert_eq!(to_ascii_lower('É'), 'É');
    for c in ['A', 'm', 'Q', '1', 'ß', '\u{212A}'] {
        assert_eq!(to_ascii_lower(c), c.to_ascii_lowercase());
    }
}

#[test]
fn substring_search() {
    assert!(contains_str("config-2.json", "config-2"));
    assert!(contains_str("my-config-2", "config-2"));
    assert!(!contains_str("config-1.json", "config-2"));
    assert!(!contains_str("conf", "config-2"));
    assert!(contains_str("abc", ""));
    assert!(contains_str("", ""));
    assert!(!contains_str("", "a"));
}

#[test]
fn string_helpers() {
    assert_eq!(chars_of("àb"), vec!['à', 'b']);
    assert_eq!(owned("x"), "x");
    assert_eq!(concat_str("ab", "cd"), "abcd");
    assert_eq!(yes_no(true), "Si");
    assert_eq!(yes_no(false), "No");
    assert_eq!(on_off(true), "On");
    assert_eq!(on_off(false), "Off");
}

#[test]
fn positions_and_order() {
    let v = vec!["a".to_string(), "b".to_string(), "a".to_string()];
    assert_eq!(position_of(&v, "a"), Some(0));
    assert_eq!(position_of(&v, "b"), Some(1));
    assert_eq!(position_of(&v, "c"), None);
    assert!(lex_le_str("BTC", "SOL"));
    assert!(!lex_le_str("SOL", "BTC"));
    assert!(lex_le_str("SOL", "SOL"));
    assert!(lex_le_str("SO", "SOL"));
    assert!(!lex_le_str("SOL", "SO"));
    assert!(lex_le_str("", ""));
    assert!(lex_le_str("Z", "a"));
    for (a, b) in [("abc", "abd"), ("é", "z"), ("z", "é"), ("", "a"), ("ab", "a")] {
        assert_eq!(lex_le_str(a, b), a <= b, "{a:?} {b:?}");
    }
}

#[test]
fn shown_numbers_read_back() {
    for n in [0u64, 1, 9, 10, 99, 100, 4294967295, u64::MAX] {
        assert_eq!(parse_unsigned(&decimal_string(n), u64::MAX), Some(n));
    }
    assert_eq!(parse_unsigned(&decimal_string(4294967296), u32::MAX as u64), None);
}

#[test]
fn trimmed_answers_match_str_trim() {
    assert_eq!(trimmed("  12\n"), "12");
    assert_eq!(trimmed("\r\n"), "");
    assert_eq!(trimmed(""), "");
    assert_eq!(trimmed("a b"), "a b");
    let samples = [
        "\t C:\\Chrome\\chrome.exe \r\n",
        "\u{a0}\u{3000}x\u{2029}",
        "\u{85}\u{1680} y z \u{200a}\u{202f}\u{205f}",
        "\u{200b}zero width\u{200b}",
        "\u{b}\u{c}inner \t space\u{2000}",
        "   ",
    ];
    for s in samples {
        assert_eq!(trimmed(s), s.trim(), "{s:?}");
    }
    for c in (0u32..0x3100).filter_map(char::from_u32) {
        let s = format!("{c}a{c}");
        assert_eq!(trimmed(&s), s.trim(), "{:x}", c as u32);
    }
}
