use yall::bluesky::{prepare_text, BLUESKY_CHARACTER_LIMIT};
use yall::text::{decimal_text, is_blank, is_white_space, trim_trailing_slashes, truncate_chars};

#[test]
fn test_bluesky_truncation() {
    // Test that long text gets truncated to 300 characters
    let long_text = "a".repeat(400);
    let truncated = truncate_chars(&long_text, BLUESKY_CHARACTER_LIMIT);

    assert_eq!(truncated.chars().count(), BLUESKY_CHARACTER_LIMIT);
    assert_eq!(truncated, "a".repeat(300));
}

#[test]
fn test_bluesky_no_truncation_needed() {
    // Test that short text doesn't get truncated
    let short_text = "Hello, world!";
    let result = truncate_chars(short_text, BLUESKY_CHARACTER_LIMIT);

    assert_eq!(result, short_text);
}

#[test]
fn test_unicode_truncation() {
    // Test that Unicode characters are handled properly
    let unicode_text = "🚀".repeat(400); // Each emoji is multiple bytes but 1 character
    let truncated = truncate_chars(&unicode_text, BLUESKY_CHARACTER_LIMIT);

    assert_eq!(truncated.chars().count(), BLUESKY_CHARACTER_LIMIT);
    assert_eq!(truncated, "🚀".repeat(300));
}

#[test]
fn truncation_at_the_boundary() {
    assert_eq!(truncate_chars(&"é".repeat(300), 300), "é".repeat(300));
    assert_eq!(truncate_chars(&"é".repeat(301), 300), "é".repeat(300));
    assert_eq!(truncate_chars("abc", 0), "");
    assert_eq!(truncate_chars("", 5), "");
}

#[test]
fn prepared_text_substitutes_a_space_only_with_an_image() {
    assert_eq!(prepare_text("", true), " ");
    assert_eq!(prepare_text(" \n\t", true), " ");
    assert_eq!(prepare_text("", false), "");
    assert_eq!(prepare_text("  ", false), "  ");
    assert_eq!(prepare_text(" hi ", true), " hi ");
    assert_eq!(prepare_text(&"x".repeat(400), true), "x".repeat(300));
}

#[test]
fn white_space_agrees_with_std() {
    for n in 0u32..0x11_0000 {
        if let Some(c) = char::from_u32(n) {
            assert_eq!(is_white_space(c), c.is_whitespace(), "U+{:04X}", n);
        }
    }
}

#[test]
fn blank_agrees_with_trim() {
    for text in ["", " ", "\u{3000}\u{a0}\r\n", "a", " a ", "\u{200b}", " \u{feff}"] {
        assert_eq!(is_blank(text), text.trim().is_empty(), "{:?}", text);
    }
}

#[test]
fn trailing_slashes_are_trimmed() {
    for text in ["", "/", "//", "https://m.example", "https://m.example/", "https://m.example//", "a/b/", "é/"] {
        assert_eq!(trim_trailing_slashes(text), text.trim_end_matches('/'), "{:?}", text);
    }
}

#[test]
fn decimal_text_agrees_with_std() {
    for n in [0usize, 1, 9, 10, 11, 99, 100, 1000000, 1000001, usize::MAX] {
        assert_eq!(decimal_text(n), n.to_string());
    }
}
