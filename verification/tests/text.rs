use azure_aitoolsconnect::text::{
    char_is_space, chars_of, i64_to_decimal, millis_as_seconds, str_contains, str_eq, str_prefix,
    str_replace_char, str_second_word, str_split_commas, str_starts_with, str_trim,
    str_to_u64, str_trim_end, string_of, u64_to_decimal, u64_to_decimal2, u64_to_decimal3,
};

#[test]
fn decimals() {
    for n in [0u64, 1, 9, 10, 11, 99, 100, 101, 1234567890, u64::MAX] {
        assert_eq!(u64_to_decimal(n), n.to_string());
        assert_eq!(u64_to_decimal2(n), format!("{:02}", n));
        assert_eq!(u64_to_decimal3(n), format!("{:03}", n));
    }
    assert_eq!(millis_as_seconds(0), "0.000");
    assert_eq!(millis_as_seconds(1), "0.001");
    assert_eq!(millis_as_seconds(1500), "1.500");
    assert_eq!(millis_as_seconds(u64::MAX), "18446744073709551.615");
}

#[test]
fn searching() {
    for (hay, needle) in [
        ("", ""),
        ("abc", ""),
        ("", "a"),
        ("abc", "abc"),
        ("abc", "bc"),
        ("abc", "abcd"),
        ("aaab", "aab"),
        ("h\u{e9}llo", "\u{e9}l"),
        ("timeout", "timed out"),
    ] {
        assert_eq!(str_contains(hay, needle), hay.contains(needle), "{:?} {:?}", hay, needle);
        assert_eq!(str_starts_with(hay, needle), hay.starts_with(needle), "{:?} {:?}", hay, needle);
    }
    assert!(str_eq("a", "a"));
    assert!(!str_eq("a", "A"));
    assert!(str_eq("", ""));
}

#[test]
fn cutting() {
    for s in ["", "/", "a/", "a//", "/a", "a/b/", "///"] {
        assert_eq!(str_trim_end(s, '/'), s.trim_end_matches('/'));
    }
    for s in ["", "a-b", "--", "a_b", "\u{2014}-"] {
        assert_eq!(str_replace_char(s, '-', '_'), s.replace('-', "_"));
    }
    for s in ["", " a ", "\t\r\n", "a b", "\u{a0}x\u{3000}", "  multiple words  "] {
        assert_eq!(str_trim(s), s.trim());
    }
    for s in ["", "a", "a,b", ",", "a,,b,", " x , y "] {
        let expected: Vec<&str> = s.split(',').collect();
        assert_eq!(str_split_commas(s), expected);
    }
    for s in ["", "GET", "GET /x HTTP/1.1\r\n", "  a\t b  c", "a \u{2003}b", "one\u{a0}two three"] {
        assert_eq!(
            str_second_word(s),
            s.split_whitespace().nth(1).map(|w| w.to_string()),
            "{:?}",
            s
        );
    }
    assert_eq!(str_prefix("abc", 2), "ab");
    assert_eq!(str_prefix("abc", 3), "abc");
    assert_eq!(str_prefix("abc", 9), "abc");
    assert_eq!(str_prefix("\u{e9}\u{e9}\u{e9}", 2), "\u{e9}\u{e9}");
    assert_eq!(str_prefix("", 0), "");
    let chars = chars_of("h\u{e9}");
    assert_eq!(chars, vec!['h', '\u{e9}']);
    assert_eq!(string_of(&chars), "h\u{e9}");
}

#[test]
fn white_space_is_that_of_the_standard_library() {
    for code in 0u32..0x3100 {
        if let Some(c) = char::from_u32(code) {
            assert_eq!(char_is_space(c), c.is_whitespace(), "U+{:04X}", code);
        }
    }
    assert!(!char_is_space('\u{feff}'));
    assert!(!char_is_space('\u{200b}'));
}

#[test]
fn signed_decimals() {
    for n in [0i64, 1, -1, 59, -60, 1234567890, i64::MAX, i64::MIN] {
        assert_eq!(i64_to_decimal(n), n.to_string());
    }
}

#[test]
fn numbers_in_decimal_digits() {
    for text in ["0", "7", "007", "42", "18446744073709551615", "18446744073709551616", "", "-1",
        "+1", "1 ", "1e3", "\u{661}", "99999999999999999999999"]
    {
        let expected = if text.chars().all(|c| c.is_ascii_digit()) { text.parse::<u64>().ok() } else { None };
        assert_eq!(str_to_u64(text), expected, "{:?}", text);
    }
}
