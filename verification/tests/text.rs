use noda_interview::text::{char_is_whitespace, chars_equal, push_decimal, trim_whitespace};

#[test]
fn trims_unicode_whitespace_on_both_ends() {
    assert_eq!(trim_whitespace("  a b  "), "a b");
    assert_eq!(trim_whitespace("\u{85}\u{2028}x\u{202F}\u{205F}"), "x");
    assert_eq!(trim_whitespace(" \t\n "), "");
    assert_eq!(trim_whitespace(""), "");
    assert_eq!(trim_whitespace("\u{200B}x"), "\u{200B}x");
}

#[test]
fn trim_agrees_with_the_standard_library() {
    for s in ["  x ", "\u{3000}y\u{1680}", "\u{180E}z", "é\u{A0}", "\r\n", "a\u{2000}b"] {
        assert_eq!(trim_whitespace(s), s.trim());
    }
}

#[test]
fn compares_strings_by_chars() {
    assert!(chars_equal("TEXT", "TEXT"));
    assert!(!chars_equal("TEXT", "TEX"));
    assert!(!chars_equal("text", "TEXT"));
    assert!(chars_equal("", ""));
}

#[test]
fn renders_decimal_numbers() {
    let mut s = String::from("n=");
    push_decimal(&mut s, 0);
    push_decimal(&mut s, 1_000_000);
    assert_eq!(s, "n=01000000");
    let mut s = String::new();
    push_decimal(&mut s, u128::MAX);
    assert_eq!(s, u128::MAX.to_string());
}

#[test]
fn whitespace_table_matches_every_char() {
    for code in 0u32..0x11_0000 {
        if let Some(c) = char::from_u32(code) {
            let s = c.to_string();
            assert_eq!(trim_whitespace(&s), s.trim(), "code point {:#x}", code);
        }
    }
}

#[test]
fn whitespace_test_matches_the_standard_library() {
    for code in 0u32..0x11_0000 {
        if let Some(c) = char::from_u32(code) {
            assert_eq!(char_is_whitespace(c), c.is_whitespace(), "code point {:#x}", code);
        }
    }
}
