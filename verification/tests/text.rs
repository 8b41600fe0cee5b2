use mac_k3d::text::{
    concat3, contains_str, contains_string, decimal_string, first_line, join_path,
    join_with, parse_u32, parse_u64, split_on, split_words, str_eq, trim,
};

#[test]
fn trimming() {
    assert_eq!(trim("  a b \n"), "a b");
    assert_eq!(trim(&trim("\t x \r\n")), trim("\t x \r\n"));
    assert_eq!(trim("   "), "");
}

#[test]
fn decimal_round_trip() {
    assert_eq!(decimal_string(0), "0");
    assert_eq!(decimal_string(18446744073709551615), "18446744073709551615");
    for n in [0u32, 7, 10, 4294967295] {
        assert_eq!(parse_u32(&decimal_string(n as u64)), Some(n));
    }
    assert_eq!(parse_u32("+12"), Some(12));
    assert_eq!(parse_u32("4294967296"), None);
    assert_eq!(parse_u32(""), None);
    assert_eq!(parse_u32("1 2"), None);
    assert_eq!(parse_u32("-1"), None);
    assert_eq!(parse_u64("4294967296"), Some(4294967296));
    assert_eq!(parse_u64("18446744073709551616"), None);
}

#[test]
fn split_and_join() {
    assert_eq!(split_on("a:b::c", ':'), vec!["a", "b", "", "c"]);
    assert_eq!(split_on("", ':'), vec![""]);
    let parts = split_on("/usr/bin:/bin", ':');
    assert_eq!(join_with(&parts, ":"), "/usr/bin:/bin");
    assert_eq!(split_words("  k3d   mac-k3d 1/1\t0/0 "), vec!["k3d", "mac-k3d", "1/1", "0/0"]);
    assert!(split_words(" \n").is_empty());
}

#[test]
fn searching() {
    assert!(contains_str("hello world", "o w"));
    assert!(contains_str("abc", ""));
    assert!(!contains_str("abc", "abcd"));
    assert!(contains_string(&vec!["a".to_string(), "b".to_string()], "b"));
    assert!(!contains_string(&vec!["a".to_string()], "c"));
    assert!(str_eq("x", "x"));
    assert!(!str_eq("x", "y"));
    assert_eq!(first_line("one\r\ntwo"), Some("one".to_string()));
    assert_eq!(first_line("single"), Some("single".to_string()));
    assert_eq!(first_line(""), None);
}

#[test]
fn paths_and_concatenation() {
    assert_eq!(join_path("/a", "b"), "/a/b");
    assert_eq!(join_path("/a/", "b"), "/a/b");
    assert_eq!(join_path("/a", "/b"), "/b");
    assert_eq!(join_path("", "b"), "b");
    assert_eq!(mac_k3d::text::concat("a", "b"), "ab");
    assert_eq!(concat3("a", "b", "c"), "abc");
}
