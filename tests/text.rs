use wrapgen::text::{ends_with, join_strings, join_strs, matches_at, split, split_terminator, str_eq};

#[test]
fn split_like_std() {
    for (s, sep) in [("a, b, c", ", "), ("", ", "), ("a, ", ", "), (",, ", ", "), ("x:y:z", ":"), ("abc", ":"), (" a  b ", " ")] {
        let expected: Vec<&str> = s.split(sep).collect();
        assert_eq!(split(s, sep), expected);
    }
}

#[test]
fn split_terminator_like_std() {
    for (s, sep) in [("a, b, ", ", "), ("", ", "), ("a, , b", ", "), ("*mut inode ", " "), ("u32", " ")] {
        let expected: Vec<&str> = s.split_terminator(sep).collect();
        assert_eq!(split_terminator(s, sep), expected);
    }
}

#[test]
fn split_on_multibyte_text() {
    assert_eq!(split("é, ü", ", "), vec!["é", "ü"]);
}

#[test]
fn join_pieces() {
    assert_eq!(join_strs(&vec!["a", "b", "c"], ", "), "a, b, c");
    assert_eq!(join_strs(&vec![], ", "), "");
    assert_eq!(join_strs(&vec!["x"], ", "), "x");
    assert_eq!(join_strings(&vec!["p".to_string(), "q".to_string()], "\n\n"), "p\n\nq");
}

#[test]
fn suffixes_and_occurrences() {
    assert!(ends_with("cty::c_int", "c_int"));
    assert!(!ends_with("*mut c_int_t", "c_int"));
    assert!(!ends_with("int", "c_int"));
    assert!(matches_at("a, b", 1, ", "));
    assert!(!matches_at("a, b", 2, ", "));
    assert!(!matches_at("a,", 1, ", "));
    assert!(str_eq("inode", "inode"));
    assert!(!str_eq("inode", "inodes"));
    assert!(!str_eq("inode", "Inode"));
}
