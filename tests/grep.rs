use rsgrep::grep::{grep_lines, push_matching_line};
use rsgrep::text::{chars_of, contains_literal};

fn fruit() -> Vec<String> {
    vec!["apple".to_string(), "banana".to_string(), "grape".to_string(), "pineapple".to_string()]
}

#[test]
fn filters_fruit_by_ap() {
    // "grape" holds "ap" too: gr-ap-e.
    assert_eq!(grep_lines(&fruit(), "ap"), "apple\ngrape\npineapple\n");
}

#[test]
fn filters_fruit_by_apple() {
    assert_eq!(grep_lines(&fruit(), "apple"), "apple\npineapple\n");
}

#[test]
fn match_is_case_sensitive() {
    assert_eq!(grep_lines(&fruit(), "Ap"), "");
}

#[test]
fn empty_pattern_keeps_every_line() {
    assert_eq!(grep_lines(&fruit(), ""), "apple\nbanana\ngrape\npineapple\n");
    let with_blank = vec!["".to_string(), "x".to_string()];
    assert_eq!(grep_lines(&with_blank, ""), "\nx\n");
}

#[test]
fn no_lines_give_nothing() {
    assert_eq!(grep_lines(&Vec::new(), "a"), "");
}

#[test]
fn pattern_is_literal() {
    let lines = vec!["a.c".to_string(), "abc".to_string(), "a*".to_string()];
    assert_eq!(grep_lines(&lines, "."), "a.c\n");
    assert_eq!(grep_lines(&lines, "a*"), "a*\n");
}

#[test]
fn push_appends_only_matches() {
    let mut out = "x\n".to_string();
    push_matching_line(&mut out, "banana", "nan");
    assert_eq!(out, "x\nbanana\n");
    push_matching_line(&mut out, "grape", "nan");
    assert_eq!(out, "x\nbanana\n");
}

#[test]
fn contains_cases() {
    assert!(contains_literal("pineapple", "apple"));
    assert!(contains_literal("pineapple", "pine"));
    assert!(contains_literal("abc", "abc"));
    assert!(contains_literal("", ""));
    assert!(!contains_literal("", "a"));
    assert!(!contains_literal("ab", "abc"));
    assert!(!contains_literal("aab", "aba"));
    assert!(contains_literal("héllo wörld", "ö"));
}

#[test]
fn chars_in_order() {
    assert_eq!(chars_of("aé€"), vec!['a', 'é', '€']);
    assert_eq!(chars_of(""), Vec::<char>::new());
}
