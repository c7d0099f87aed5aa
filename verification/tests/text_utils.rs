use file_server::text::{join_comma, join_path, str_eq, str_lex_le, u64_to_string};

#[test]
fn decimal_rendering_is_exact() {
    assert_eq!(u64_to_string(0), "0");
    assert_eq!(u64_to_string(7), "7");
    assert_eq!(u64_to_string(10), "10");
    assert_eq!(u64_to_string(105), "105");
    assert_eq!(u64_to_string(u64::MAX), "18446744073709551615");
}

#[test]
fn join_comma_is_exact() {
    assert_eq!(join_comma(&Vec::new()), "");
    assert_eq!(join_comma(&vec!["a".to_string()]), "a");
    assert_eq!(
        join_comma(&vec!["a".to_string(), "b".to_string(), "c".to_string()]),
        "a, b, c"
    );
}

#[test]
fn join_path_uses_one_separator() {
    assert_eq!(join_path("dir", "file"), "dir/file");
    assert_eq!(join_path("", "file"), "/file");
}

#[test]
fn lexicographic_comparison_matches_byte_order() {
    assert!(str_lex_le("", ""));
    assert!(str_lex_le("", "a"));
    assert!(!str_lex_le("a", ""));
    assert!(str_lex_le("abc", "abc"));
    assert!(str_lex_le("abc", "abd"));
    assert!(!str_lex_le("abd", "abc"));
    assert!(str_lex_le("ab", "abc"));
    assert!(str_lex_le("[DIR] z", "[FILE] a"));
    assert_eq!(str_lex_le("A", "a"), "A" <= "a");
}

#[test]
fn string_equality_is_exact() {
    assert!(str_eq("path", "path"));
    assert!(!str_eq("path", "paths"));
    assert!(!str_eq("path", "Path"));
    assert!(str_eq("", ""));
}
