use arbor::text::{cat, decimal_string, eq_ignore_ascii_case, join, str_eq, trim};

#[test]
fn decimal_matches_format() {
    for n in [0u64, 1, 9, 10, 40, 99, 100, 1234567890, u64::MAX] {
        assert_eq!(decimal_string(n), format!("{n}"));
    }
}

#[test]
fn ascii_case_comparison() {
    assert!(eq_ignore_ascii_case("COMPLETED", "completed"));
    assert!(eq_ignore_ascii_case("Completed", "cOMPLETED"));
    assert!(!eq_ignore_ascii_case("completed", "complete"));
    assert!(!eq_ignore_ascii_case("Ä", "ä"));
    assert!(eq_ignore_ascii_case("", ""));
}

#[test]
fn trim_matches_std() {
    for s in ["", "  ", "abc", "  abc  ", "\t\na b\r\n", "\u{3000}x\u{2009}", "\u{85}y\u{a0}", "é "] {
        assert_eq!(trim(s), s.trim());
    }
}

#[test]
fn trimming_twice_changes_nothing() {
    let once = trim("\n  token  \t");
    assert_eq!(trim(&once), once);
}

#[test]
fn join_and_concat() {
    assert_eq!(join(&vec![], ", "), "");
    assert_eq!(join(&vec!["a".to_owned()], ", "), "a");
    assert_eq!(join(&vec!["a".to_owned(), "b".to_owned(), "c".to_owned()], ", "), "a, b, c");
    assert_eq!(cat("ab", "cd"), "abcd");
    assert!(str_eq("x", "x"));
    assert!(!str_eq("x", "y"));
}
