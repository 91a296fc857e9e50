use dinoe_core::text::{
    begins_with, char_count, char_is_whitespace, chars_of, decimal_string, decimal_string_u64,
    find_in, has_char, has_substring, join_path, join_strings, occurs_at_exec, split_lines,
    str_eq, string_of, string_of_range, take_chars, trim_bounds, trimmed, without_trailing,
};

fn chars(s: &str) -> Vec<char> {
    s.chars().collect()
}

#[test]
fn whitespace_is_what_std_says() {
    for code in 0..=0x3001u32 {
        if let Some(c) = char::from_u32(code) {
            assert_eq!(char_is_whitespace(c), c.is_whitespace(), "U+{:04X}", code);
        }
    }
    assert!(!char_is_whitespace('\u{FEFF}'));
    assert!(!char_is_whitespace('\u{10FFFF}'));
}

#[test]
fn trimming_is_what_std_says() {
    for s in ["", " ", "a", "  a b \n", "\u{3000}x\u{a0}", "\t\r\n", "é ", " \u{200b} "] {
        assert_eq!(trimmed(s), s.trim(), "{:?}", s);
    }
    let v = chars("xx  ab  yy");
    assert_eq!(trim_bounds(&v, 2, 8), (4, 6));
    assert_eq!(trim_bounds(&v, 2, 4), (4, 4));
    assert_eq!(trim_bounds(&v, 0, 10), (0, 10));
}

#[test]
fn characters_and_strings() {
    assert_eq!(chars_of("héllo"), chars("héllo"));
    assert_eq!(string_of(&chars("héllo")), "héllo");
    assert_eq!(string_of_range(&chars("héllo"), 1, 3), "él");
    assert_eq!(string_of_range(&chars("héllo"), 2, 2), "");
    assert_eq!(char_count("héllo"), 5);
    assert_eq!(take_chars("héllo", 2), "hé");
    assert_eq!(take_chars("héllo", 5), "héllo");
    assert_eq!(take_chars("héllo", 9), "héllo");
    assert_eq!(take_chars("héllo", 0), "");
    assert!(str_eq("a", "a"));
    assert!(!str_eq("a", "A"));
    assert!(!str_eq("a", "ab"));
}

#[test]
fn searching_is_what_std_says() {
    let cases = [
        ("hello world", "o", 0),
        ("hello world", "o", 5),
        ("hello world", "world", 0),
        ("hello", "hello!", 0),
        ("hello", "", 0),
        ("hello", "", 5),
        ("hello", "", 6),
        ("aaa", "aa", 1),
        ("aaa", "aa", 2),
        ("", "", 0),
        ("", "a", 0),
        ("ab", "b", 9),
    ];
    for (hay, needle, from) in cases {
        let expected = if from <= hay.len() {
            hay[from..].find(needle).map(|i| i + from)
        } else {
            None
        };
        assert_eq!(find_in(&chars(hay), &chars(needle), from), expected, "{:?}", (hay, needle, from));
    }
    assert!(occurs_at_exec(&chars("abc"), &chars("bc"), 1));
    assert!(!occurs_at_exec(&chars("abc"), &chars("bc"), 2));
    assert!(!occurs_at_exec(&chars("abc"), &chars("bc"), usize::MAX));
    assert!(begins_with(&chars("data: x"), &chars("data:")));
    assert!(!begins_with(&chars("dat"), &chars("data:")));
    assert!(has_substring("a..b", ".."));
    assert!(!has_substring("a.b", ".."));
    assert!(has_char("a/b", '/'));
    assert!(!has_char("ab", '/'));
}

#[test]
fn joining() {
    let parts = vec!["a".to_string(), "".to_string(), "c".to_string()];
    assert_eq!(join_strings(&parts, ", "), "a, , c");
    assert_eq!(join_strings(&vec!["only".to_string()], ", "), "only");
    assert_eq!(join_strings(&vec![], ", "), "");
}

#[test]
fn lines_are_what_std_says() {
    for s in ["", "a", "a\n", "a\nb", "a\r\nb\r\n", "\n", "\n\n", "a\n\nb", "a\r", "a\r\n\r\n", "\r\n", "x\ry\n"] {
        let expected: Vec<String> = s.lines().map(|l| l.to_string()).collect();
        assert_eq!(split_lines(s), expected, "{:?}", s);
    }
}

#[test]
fn paths_are_joined_as_std_joins_them() {
    for (base, part) in [("/a", "b"), ("/a/", "b"), ("", "b"), ("/a", "/b"), ("a", ""), ("/", "x"), (".", ".dinoe")] {
        let expected = std::path::Path::new(base).join(part);
        assert_eq!(join_path(base, part), expected.to_str().unwrap(), "{:?}", (base, part));
    }
}

#[test]
fn numbers_in_decimal() {
    for n in [0usize, 7, 10, 42, 99, 100, 1234567890] {
        assert_eq!(decimal_string(n), n.to_string());
    }
    assert_eq!(decimal_string_u64(u64::MAX), "18446744073709551615");
    assert_eq!(decimal_string_u64(1700000210000), "1700000210000");
}

#[test]
fn trailing_characters_are_dropped() {
    assert_eq!(without_trailing("http://x///", '/'), "http://x");
    assert_eq!(without_trailing("http://x", '/'), "http://x");
    assert_eq!(without_trailing("///", '/'), "");
    assert_eq!(without_trailing("", '/'), "");
}
