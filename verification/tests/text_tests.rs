use transome::text::{
    char_is_whitespace, chars_of, decimal_string, is_blank_str, join, str_contains, str_eq, trim,
};

#[test]
fn whitespace_is_the_unicode_white_space_property() {
    let mut count = 0;
    for code in 0u32..=0x10FFFF {
        if let Some(c) = char::from_u32(code) {
            assert_eq!(char_is_whitespace(c), c.is_whitespace(), "U+{:04X}", code);
            if char_is_whitespace(c) {
                count += 1;
            }
        }
    }
    assert_eq!(count, 25);
}

#[test]
fn blank_strings_hold_only_whitespace() {
    assert!(is_blank_str(""));
    assert!(is_blank_str("   "));
    assert!(is_blank_str(" \t\r\n\u{a0}\u{3000}"));
    assert!(!is_blank_str(" a "));
    assert!(!is_blank_str("\u{200b}"));
}

#[test]
fn trim_drops_whitespace_at_both_ends_only() {
    for sample in [
        "",
        " ",
        "a",
        "  a b  ",
        "\n\tx\u{3000}",
        "\u{2003}译 文\u{a0}",
        "no-trim",
        " \u{200b} ",
    ] {
        assert_eq!(trim(sample), sample.trim(), "{:?}", sample);
    }
    assert_eq!(trim("  a b  "), "a b");
}

#[test]
fn contains_finds_a_part_anywhere() {
    assert!(str_contains("https://api.openai.com/v1", "api.openai.com"));
    assert!(str_contains("abc", "abc"));
    assert!(str_contains("abc", "c"));
    assert!(str_contains("abc", ""));
    assert!(str_contains("", ""));
    assert!(!str_contains("", "a"));
    assert!(!str_contains("abc", "abcd"));
    assert!(!str_contains("abc", "ac"));
    assert!(str_contains("模型未找到 not found", "not found"));
    assert!(!str_contains("aab", "abb"));
    assert!(str_contains("aaab", "aab"));
}

#[test]
fn strings_are_equal_by_their_characters() {
    assert!(str_eq("", ""));
    assert!(str_eq("gpt-4", "gpt-4"));
    assert!(!str_eq("gpt-4", "gpt-4o"));
    assert!(!str_eq("gpt-4", "GPT-4"));
    assert!(!str_eq("模型", "模块"));
    assert_eq!(chars_of("a模b"), vec!['a', '模', 'b']);
}

#[test]
fn join_puts_the_separator_between_neighbours() {
    assert_eq!(join(&vec![], ", "), "");
    assert_eq!(join(&vec!["a".to_string()], ", "), "a");
    assert_eq!(
        join(&vec!["a".to_string(), "".to_string(), "b".to_string()], ", "),
        "a, , b"
    );
}

#[test]
fn decimal_string_writes_every_number() {
    for n in 0u16..=u16::MAX {
        assert_eq!(decimal_string(n), n.to_string());
    }
}
