use quiver_lib::text::{
    concat3, decimal, ends_with, is_blank, join, replace, starts_with, str_eq, trim,
    trimmed_lines,
};

#[test]
fn trims_unicode_white_space() {
    assert_eq!(trim(" \t a b \n"), "a b");
    assert_eq!(trim("\u{85}x\u{205f}"), "x");
    assert_eq!(trim("\u{200b}x"), "\u{200b}x");
    assert!(is_blank("\u{1680}\r\n"));
    assert!(!is_blank(" . "));
}

#[test]
fn prefixes_suffixes_and_equality() {
    assert!(starts_with("--js-runtimes=deno", "--js-runtimes="));
    assert!(!starts_with("--js", "--js-runtimes"));
    assert!(ends_with("a.exe", ".exe"));
    assert!(!ends_with("a.ex", ".exe"));
    assert!(str_eq("light", "light"));
    assert!(!str_eq("light", "Light"));
}

#[test]
fn decimal_notation() {
    assert_eq!(decimal(0), "0");
    assert_eq!(decimal(7), "7");
    assert_eq!(decimal(10), "10");
    assert_eq!(decimal(4096), "4096");
    assert_eq!(decimal(u128::MAX), u128::MAX.to_string());
}

#[test]
fn joins_with_a_separator() {
    let list = vec!["a".to_string(), "b".to_string(), "c".to_string()];
    assert_eq!(join(&list, ", "), "a, b, c");
    assert_eq!(join(&Vec::new(), ", "), "");
    assert_eq!(concat3("x", "", "z"), "xz");
}

#[test]
fn replaces_left_to_right_without_overlap() {
    assert_eq!(replace("aaa", "aa", "b"), "ba");
    assert_eq!(replace("abc", "x", "y"), "abc");
    assert_eq!(replace("", "x", "y"), "");
    assert_eq!(replace("héllo héllo", "é", "e"), "hello hello");
}

#[test]
fn lines_are_split_and_trimmed() {
    assert_eq!(trimmed_lines("a\n b \r\nc"), vec!["a", "b", "c"]);
    assert_eq!(trimmed_lines("a\n"), vec!["a"]);
    assert_eq!(trimmed_lines("a\n\n"), vec!["a", ""]);
    assert_eq!(trimmed_lines("\n"), vec![""]);
    assert!(trimmed_lines("").is_empty());
    let text = "x\n\ny \n";
    let expected: Vec<&str> = text.lines().map(str::trim).collect();
    assert_eq!(trimmed_lines(text), expected);
}
