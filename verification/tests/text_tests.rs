use nixdeploy::text::{contains_str, i32_text, join_strings, lines_of, push_decimal, trim_str};

#[test]
fn lines_follow_str_lines() {
    let input = "a\r\nb\n\nc\r";
    let expected: Vec<String> = input.lines().map(|s| s.to_string()).collect();
    assert_eq!(lines_of(input), expected);
    assert_eq!(lines_of("x\n"), vec!["x".to_string()]);
    assert!(lines_of("").is_empty());
    assert_eq!(lines_of("\n"), vec!["".to_string()]);
}

#[test]
fn join_puts_separator_between() {
    let parts = vec!["a".to_string(), "b".to_string(), "c".to_string()];
    assert_eq!(join_strings(&parts, ", "), "a, b, c");
    assert_eq!(join_strings(&Vec::new(), ", "), "");
}

#[test]
fn trim_removes_unicode_white_space() {
    assert_eq!(trim_str("  \t/nix/store/abc \n"), "/nix/store/abc");
    assert_eq!(trim_str("\u{3000}x\u{a0}"), "x");
    assert_eq!(trim_str("   "), "");
}

#[test]
fn decimal_rendering() {
    let mut s = String::from("took ");
    push_decimal(&mut s, 0);
    assert_eq!(s, "took 0");
    let mut s = String::new();
    push_decimal(&mut s, 1800);
    assert_eq!(s, "1800");
    let mut s = String::new();
    push_decimal(&mut s, u64::MAX);
    assert_eq!(s, u64::MAX.to_string());
    assert_eq!(i32_text(-42), "-42");
    assert_eq!(i32_text(i32::MIN), i32::MIN.to_string());
}

#[test]
fn substring_search() {
    assert!(contains_str("an error here", "error"));
    assert!(!contains_str("all good", "warning"));
    assert!(contains_str("x", ""));
}
