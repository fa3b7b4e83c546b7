use tsight_agent::text::{non_blank_lines, str_eq, str_has_prefix, strip_spaces};

#[test]
fn test_strip_spaces_exact() {
    assert_eq!(strip_spaces("4222 2222 2222 2222"), "4222222222222222");
    assert_eq!(strip_spaces("   "), "");
    assert_eq!(strip_spaces(""), "");
    assert_eq!(strip_spaces("no-spaces"), "no-spaces");
    assert_eq!(strip_spaces(" a b c "), "abc");
    // Only the plain space is stripped, not tabs or other whitespace.
    assert_eq!(strip_spaces("a\tb"), "a\tb");
}

#[test]
fn test_str_eq_and_prefix() {
    assert!(str_eq("orders", "orders"));
    assert!(!str_eq("orders", "Orders"));
    assert!(!str_eq("orders", "order"));
    assert!(str_eq("", ""));

    assert!(str_has_prefix("DateTime64", "DateTime"));
    assert!(str_has_prefix("Int32", "Int"));
    assert!(!str_has_prefix("UInt32", "Int"));
    assert!(str_has_prefix("anything", ""));
    assert!(!str_has_prefix("In", "Int"));
}

#[test]
fn test_non_blank_lines_splits_rows() {
    let body = "{\"a\":1}\n{\"b\":2}\n\n{\"c\":3}\n";
    let lines = non_blank_lines(body);
    assert_eq!(lines, vec!["{\"a\":1}", "{\"b\":2}", "{\"c\":3}"]);
}

#[test]
fn test_non_blank_lines_handles_crlf_and_blanks() {
    let body = "first\r\n   \r\nsecond\r\n\t\nthird";
    let lines = non_blank_lines(body);
    assert_eq!(lines, vec!["first", "second", "third"]);
}

#[test]
fn test_non_blank_lines_empty_input() {
    assert!(non_blank_lines("").is_empty());
    assert!(non_blank_lines("\n\n\n").is_empty());
    assert!(non_blank_lines("  \n \t \n").is_empty());
}
