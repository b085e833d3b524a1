use better_answer::text::{
    count_words, equals, equals_ignoring_case, is_blank, is_whitespace, join, parse_u16, split,
    strip_head, take_chars, to_decimal, to_lower, trim,
};

#[test]
fn white_space_is_that_of_the_standard_library() {
    for code in 0..=0x10FFFFu32 {
        if let Some(c) = char::from_u32(code) {
            assert_eq!(is_whitespace(c), c.is_whitespace(), "{code:x}");
        }
    }
}

#[test]
fn trimming_cuts_both_ends_only() {
    assert_eq!(trim(" \u{3000}a b\u{a0}\n"), "a b");
    assert_eq!(trim("ação"), "ação");
    assert_eq!(trim(trim("  x ")), "x");
    assert_eq!(trim(" \t"), "");
    assert!(is_blank(" \n\u{2003}"));
    assert!(is_blank(""));
    assert!(!is_blank(" . "));
}

#[test]
fn lower_case_is_ascii_only() {
    assert_eq!(to_lower("CTRL+Ç[@Z"), "ctrl+Ç[@z");
    assert!(equals_ignoring_case("ChAmAdO", "chamado"));
    assert!(!equals_ignoring_case("É", "é"));
    assert!(equals("é", "é"));
    assert!(!equals("a", "ab"));
}

#[test]
fn splitting_keeps_empty_pieces() {
    assert_eq!(split("a+b++c", '+'), ["a", "b", "", "c"]);
    assert_eq!(split("", '+'), [""]);
    assert_eq!(split("+", '+'), ["", ""]);
}

#[test]
fn joining_puts_the_separator_between() {
    assert_eq!(join(&vec![], "-"), "");
    assert_eq!(join(&vec!["a".to_string()], "-"), "a");
    assert_eq!(join(&vec!["a".to_string(), "".to_string(), "b".to_string()], " · "), "a ·  · b");
}

#[test]
fn numbers_are_read_as_the_standard_library_does() {
    for s in [
        "0", "7", "65535", "65536", "99999999999999999999999", "", "+", "+5", "++5", "-1", "5x",
        "007", " 5", "٣",
    ] {
        assert_eq!(parse_u16(s), s.parse::<u16>().ok(), "{s}");
    }
}

#[test]
fn numbers_are_written_in_decimal() {
    for n in [0usize, 7, 10, 42, 100, 12345, usize::MAX] {
        assert_eq!(to_decimal(n), n.to_string());
    }
}

#[test]
fn words_are_runs_of_ink() {
    assert_eq!(count_words(""), 0);
    assert_eq!(count_words("  "), 0);
    assert_eq!(count_words("um"), 1);
    assert_eq!(count_words(" um  dois\ntrês "), 3);
}

#[test]
fn heads_are_cut_by_characters() {
    assert_eq!(take_chars("ação", 2), "aç");
    assert_eq!(take_chars("ação", 9), "ação");
    assert_eq!(take_chars("ação", 0), "");
    assert_eq!(strip_head("data: x", "data:"), Some(" x"));
    assert_eq!(strip_head("dat", "data:"), None);
    assert_eq!(strip_head("éa", "é"), Some("a"));
    assert_eq!(strip_head("x", ""), Some("x"));
}
