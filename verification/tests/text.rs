use evolve::text::{
    contains_str, ends_with_str, starts_with_str, str_eq, tokenize, trim_char, trim_spaces,
};

#[test]
fn tokenize_splits_on_runs_of_whitespace() {
    assert_eq!(tokenize("cargo test"), vec![String::from("cargo"), String::from("test")]);
    assert_eq!(
        tokenize("  a \t b\nc  "),
        vec![String::from("a"), String::from("b"), String::from("c")]
    );
    assert_eq!(tokenize(""), Vec::<String>::new());
    assert_eq!(tokenize(" \t\r\n"), Vec::<String>::new());
    assert_eq!(tokenize("one"), vec![String::from("one")]);
}

#[test]
fn trim_spaces_removes_both_ends_only() {
    assert_eq!(trim_spaces("  x y  "), "x y");
    assert_eq!(trim_spaces("\t\n"), "");
    assert_eq!(trim_spaces("none"), "none");
}

#[test]
fn trim_char_strips_matching_quotes() {
    assert_eq!(trim_char("\"quoted\"", '"'), "quoted");
    assert_eq!(trim_char("\"\"double\"\"", '"'), "double");
    assert_eq!(trim_char("plain", '"'), "plain");
    assert_eq!(trim_char("\"\"", '"'), "");
}

#[test]
fn substring_checks_behave_like_std() {
    assert!(contains_str("tests/test_core.py", "test"));
    assert!(!contains_str("src/lib.rs", "test"));
    assert!(contains_str("anything", ""));
    assert!(starts_with_str("test_command = 1", "test_command"));
    assert!(!starts_with_str("a_test_command", "test_command"));
    assert!(ends_with_str("src/lib.rs", ".rs"));
    assert!(!ends_with_str("src/lib.rs", ".py"));
    assert!(str_eq("rust", "rust"));
    assert!(!str_eq("rust", "rusty"));
}
