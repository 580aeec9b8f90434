use gantt_runtime::text::{
    join_lines, last_token_of, str_contains, str_ends_with, str_eq_ignore_case, str_has_segment,
    str_is_blank, str_lex_le, str_trim,
};

#[test]
fn contains_finds_a_substring_in_the_middle() {
    assert!(str_contains("npm notice added 12 packages", "added"));
}

#[test]
fn contains_rejects_an_absent_substring() {
    assert!(!str_contains("npm notice", "added"));
}

#[test]
fn contains_is_case_sensitive() {
    assert!(!str_contains("parsing input", "Parsing"));
    assert!(str_contains("Parsing input", "Parsing"));
}

#[test]
fn empty_needle_is_always_contained() {
    assert!(str_contains("", ""));
    assert!(str_contains("abc", ""));
}

#[test]
fn needle_longer_than_hay_is_not_contained() {
    assert!(!str_contains("ab", "abc"));
}

#[test]
fn ends_with_matches_the_suffix_only() {
    assert!(str_ends_with("report.html", ".html"));
    assert!(!str_ends_with("report.html.bak", ".html"));
    assert!(!str_ends_with("html", ".html"));
}

#[test]
fn last_token_takes_the_final_word() {
    assert_eq!(last_token_of("Generated: out.html"), "out.html");
    assert_eq!(last_token_of("Generated:   a/b c.html  "), "c.html");
}

#[test]
fn last_token_of_blank_line_is_empty() {
    assert_eq!(last_token_of("   \t "), "");
    assert_eq!(last_token_of(""), "");
}

#[test]
fn last_token_of_single_word_is_the_word() {
    assert_eq!(last_token_of("word"), "word");
}

#[test]
fn trim_strips_both_ends_only() {
    assert_eq!(str_trim("  v24.12.0\n"), "v24.12.0");
    assert_eq!(str_trim("a b"), "a b");
    assert_eq!(str_trim("   "), "");
}

#[test]
fn blank_test_accepts_whitespace_and_empty() {
    assert!(str_is_blank(""));
    assert!(str_is_blank(" \t\r\n"));
    assert!(!str_is_blank(" x "));
}

#[test]
fn case_insensitive_comparison_covers_ascii_letters() {
    assert!(str_eq_ignore_case("XLSX", "xlsx"));
    assert!(str_eq_ignore_case("Json", "jSON"));
    assert!(!str_eq_ignore_case("xls", "xlsx"));
    assert!(!str_eq_ignore_case("jsom", "json"));
}

#[test]
fn join_lines_inserts_the_separator_between_lines() {
    let lines = vec![String::from("a"), String::from("b"), String::from("c")];
    assert_eq!(join_lines(&lines, "\n"), "a\nb\nc");
    let one = vec![String::from("only")];
    assert_eq!(join_lines(&one, "\n"), "only");
    let none: Vec<String> = vec![];
    assert_eq!(join_lines(&none, "\n"), "");
}

#[test]
fn segment_test_matches_whole_segments_only() {
    assert!(str_has_segment("/usr/bin:/usr/local/bin", ':', "/usr/bin"));
    assert!(!str_has_segment("/usr/bin2:/usr/local/bin", ':', "/usr/bin"));
    assert!(str_has_segment("/usr/bin", ':', "/usr/bin"));
    assert!(!str_has_segment("", ':', "/usr/bin"));
}

#[test]
fn a_segment_holding_the_separator_is_never_found() {
    assert!(!str_has_segment("a:b", ':', "a:b"));
}

#[test]
fn lexicographic_order_compares_versions_by_name() {
    assert!(str_lex_le("v22.1.0", "v24.12.0"));
    assert!(!str_lex_le("v24.12.0", "v22.1.0"));
    assert!(str_lex_le("v24", "v24.1"));
    assert!(str_lex_le("", "a"));
    assert!(str_lex_le("same", "same"));
}
