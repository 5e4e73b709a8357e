use linear_tasks::models::DaytimeBlock;
use linear_tasks::templates::{parse_weekday, parse_weekdays};
use linear_tasks::calendar::Weekday;
use linear_tasks::text::{
    chars_of, contains_string, eq_ignore_ascii_case, join_strings, split_chars, str_equal,
    trim_chars,
};

fn chars(s: &str) -> Vec<char> {
    s.chars().collect()
}

#[test]
fn ascii_case_is_ignored_but_not_other_case() {
    assert!(eq_ignore_ascii_case("Today", "TODAY"));
    assert!(eq_ignore_ascii_case("week", "WeEk"));
    assert!(!eq_ignore_ascii_case("week", "weeks"));
    assert!(!eq_ignore_ascii_case("Ω", "ω"));
}

#[test]
fn words_are_compared_after_unicode_lowercasing() {
    assert_eq!(DaytimeBlock::from_str("WIECZÓR"), Some(DaytimeBlock::Evening));
    assert_eq!(parse_weekday("MoNdAy"), Some(Weekday::Mon));
    assert_eq!(parse_weekday("ŚRODA"), Some(Weekday::Wed));
}

#[test]
fn string_equality_and_chars() {
    assert!(str_equal("abc", "abc"));
    assert!(!str_equal("abc", "abd"));
    assert!(!str_equal("abc", "ab"));
    assert_eq!(chars_of("żółw"), vec!['ż', 'ó', 'ł', 'w']);
    assert_eq!(parse_weekdays(" piątek ,\u{2003}sobota\t"), vec![Weekday::Fri, Weekday::Sat]);
}

#[test]
fn split_keeps_empty_pieces() {
    let pieces = split_chars(&chars("a,,b"), ',');
    assert_eq!(pieces, vec![chars("a"), vec![], chars("b")]);
    assert_eq!(split_chars(&chars(""), ','), vec![Vec::<char>::new()]);
    assert_eq!(split_chars(&chars("mon,"), ','), vec![chars("mon"), vec![]]);
}

#[test]
fn trim_removes_outer_whitespace_only() {
    assert_eq!(trim_chars(&chars("  mon \t")), chars("mon"));
    assert_eq!(trim_chars(&chars(" a b ")), chars("a b"));
    assert_eq!(trim_chars(&chars("   ")), Vec::<char>::new());
    assert_eq!(trim_chars(&chars("\u{00A0}x\n")), chars("x"));
}

#[test]
fn join_and_contains() {
    let parts = vec!["Mon".to_string(), "Wed".to_string(), "Fri".to_string()];
    assert_eq!(join_strings(&parts, ", "), "Mon, Wed, Fri");
    assert_eq!(join_strings(&Vec::new(), ", "), "");
    assert_eq!(join_strings(&vec!["x".to_string()], ", "), "x");
    assert!(contains_string(&parts, "Wed"));
    assert!(!contains_string(&parts, "wed"));
}

#[test]
fn whitespace_matches_std_on_every_char() {
    for code in 0u32..=0x10FFFF {
        if let Some(c) = char::from_u32(code) {
            assert_eq!(linear_tasks::text::is_whitespace(c), c.is_whitespace(), "U+{:04X}", code);
        }
    }
}
