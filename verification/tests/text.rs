use aqua_backend::text::{
    after_first, after_last, contains, lines, same, starts_with, strip_prefix, trim_matches, words,
};

#[test]
fn texts_are_compared_by_their_characters() {
    assert!(same("für", "für"));
    assert!(!same("fur", "für"));
    assert!(same("", ""));
}

#[test]
fn prefixes_and_parts() {
    assert!(starts_with("v1.0", "v"));
    assert!(starts_with("v1.0", ""));
    assert!(!starts_with("v", "v1"));
    assert_eq!(strip_prefix("übung-1", "übung-"), Some("1"));
    assert_eq!(strip_prefix("1.0", "v"), None);
    assert!(contains("tool_v1.0.zip", "v1.0"));
    assert!(contains("abc", ""));
    assert!(!contains("ab", "abc"));
}

#[test]
fn what_follows_the_first_and_the_last() {
    assert_eq!(after_last("https://x.dev/a/b.zip", '/'), "b.zip");
    assert_eq!(after_last("b.zip", '/'), "b.zip");
    assert_eq!(after_last("a/", '/'), "");
    assert_eq!(after_first("aqua:a/b:c", ':'), Some("a/b:c"));
    assert_eq!(after_first("none", ':'), None);
}

#[test]
fn characters_are_trimmed_at_both_ends_only() {
    assert_eq!(trim_matches("**a*b*", '*'), "a*b");
    assert_eq!(trim_matches("***", '*'), "");
}

#[test]
fn lines_end_with_a_line_feed_or_with_both() {
    assert_eq!(lines("a\r\nb\n\nc\r"), ["a", "b", "", "c\r"]);
    assert_eq!(lines("a\n"), ["a"]);
    assert!(lines("").is_empty());
}

#[test]
fn words_are_parted_by_any_white_space() {
    assert_eq!(words("  abc\u{3000}d \t\u{a0}e"), ["abc", "d", "e"]);
    assert_eq!(words("a\u{200b}b"), ["a\u{200b}b"]);
    assert!(words(" \n ").is_empty());
}

#[test]
fn white_space_is_what_unicode_says() {
    for c in '\0'..=char::MAX {
        let space = matches!(
            c,
            '\u{9}'..='\u{d}'
                | ' '
                | '\u{85}'
                | '\u{a0}'
                | '\u{1680}'
                | '\u{2000}'..='\u{200a}'
                | '\u{2028}'
                | '\u{2029}'
                | '\u{202f}'
                | '\u{205f}'
                | '\u{3000}'
        );
        let mut buffer = [0; 4];
        assert_eq!(words(c.encode_utf8(&mut buffer)).is_empty(), space);
    }
}
