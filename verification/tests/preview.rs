use agent_loop::text::{
    any_segment_is, contains_text, eq_ignore_ascii_case, is_white, join, number_text, starts_with,
    trim, truncate_for_preview,
};

#[test]
fn test_truncate_short_input() {
    assert_eq!(truncate_for_preview("hello", 10), "hello");
}

#[test]
fn test_truncate_empty_input() {
    assert_eq!(truncate_for_preview("", 10), "");
}

#[test]
fn test_truncate_exact_length() {
    assert_eq!(truncate_for_preview("hello", 5), "hello");
}

#[test]
fn test_truncate_over_limit() {
    let result = truncate_for_preview("hello world, this is long", 10);
    assert!(result.ends_with("..."));
    // "hello worl" = 10 chars + "..."
    assert_eq!(result, "hello worl...");
}

#[test]
fn test_truncate_collapses_newlines() {
    let result = truncate_for_preview("line1\nline2\nline3", 100);
    assert!(!result.contains('\n'));
    assert_eq!(result, "line1 line2 line3");
}

#[test]
fn test_truncate_collapses_whitespace() {
    let result = truncate_for_preview("hello   world", 100);
    assert_eq!(result, "hello world");
}

#[test]
fn test_truncate_multibyte_utf8() {
    // Each emoji is 4 bytes. Truncating at char boundary must not panic.
    let input = "😀😁😂🤣😃😄😅😆😉😊";
    let result = truncate_for_preview(input, 5);
    assert!(result.ends_with("..."));
    // First 5 chars = 5 emoji
    assert_eq!(result, "😀😁😂🤣😃...");
}

#[test]
fn test_truncate_cjk_characters() {
    // CJK chars are 3 bytes each in UTF-8.
    let input = "你好世界测试数据很长的字符串";
    let result = truncate_for_preview(input, 4);
    assert_eq!(result, "你好世界...");
}

#[test]
fn test_truncate_mixed_multibyte_and_ascii() {
    let input = "hello 世界 foo";
    let result = truncate_for_preview(input, 8);
    // 'h','e','l','l','o',' ','世','界' = 8 chars
    assert_eq!(result, "hello 世界...");
}

#[test]
fn preview_is_one_line_of_bounded_length() {
    let result = truncate_for_preview("a\n\tb\u{2028}c  \n d", 4);
    assert!(!result.chars().any(|c| c != ' ' && c.is_whitespace()));
    assert!(result.chars().count() <= 7);
    assert_eq!(result, "a b ...");
}

#[test]
fn only_the_first_characters_are_looked_at() {
    // Beyond the limit and fifty more nothing counts.
    let spaces: String = std::iter::repeat(' ').take(60).collect();
    assert_eq!(truncate_for_preview(&format!("{spaces}tail"), 5), "");
}

#[test]
fn white_space_is_that_of_unicode() {
    for n in 0..=0x10FFFFu32 {
        if let Some(c) = char::from_u32(n) {
            assert_eq!(is_white(c), c.is_whitespace(), "U+{n:04X}");
        }
    }
}

#[test]
fn trimming_takes_both_ends() {
    assert_eq!(trim(" \t hi there\n\u{3000}"), "hi there");
    assert_eq!(trim("   "), "");
    assert_eq!(trim(""), "");
    assert_eq!(trim("ä ö"), "ä ö");
}

#[test]
fn texts_compare_as_expected() {
    assert!(starts_with("/approve", "/"));
    assert!(!starts_with("", "/"));
    assert!(eq_ignore_ascii_case("Image/PNG", "image/png"));
    assert!(!eq_ignore_ascii_case("Ä", "ä"));
    assert!(any_segment_is("image/png;base64", ';', "base64"));
    assert!(!any_segment_is("image/png", ';', "base64"));
    let list = vec!["shell".to_string(), "http".to_string()];
    assert!(contains_text(&list, "http"));
    assert!(!contains_text(&list, "htt"));
    assert_eq!(join(&list, ", "), "shell, http");
    assert_eq!(join(&Vec::new(), ", "), "");
}

#[test]
fn numbers_are_written_in_decimal() {
    assert_eq!(number_text(0), "0");
    assert_eq!(number_text(1024), "1024");
    assert_eq!(number_text(u128::MAX), u128::MAX.to_string());
}
