use hackdesk::text::{decimal_string, join2, join3, str_eq, trim};

#[test]
fn trim_removes_white_space_at_both_ends() {
    assert_eq!(trim("  a b  "), "a b");
    assert_eq!(trim("\t\r\nx\u{2003}\u{3000}"), "x");
    assert_eq!(trim("x"), "x");
    assert_eq!(trim(""), "");
    assert_eq!(trim(" \n "), "");
    assert_eq!(trim("\u{feff}x"), "\u{feff}x");
    assert_eq!(trim("é è"), "é è");
}

#[test]
fn trim_agrees_with_the_standard_library() {
    for text in ["", " ", "a", " a", "a ", " a b \n", "\u{85}\u{a0}z\u{1680}", "\u{200b}q\u{200b}"] {
        assert_eq!(trim(text), text.trim());
    }
}

#[test]
fn str_eq_compares_text() {
    assert!(str_eq("main", "main"));
    assert!(!str_eq("main", "Main"));
    assert!(!str_eq("main", "main "));
    assert!(str_eq("", ""));
}

#[test]
fn decimal_string_writes_numbers() {
    assert_eq!(decimal_string(0), "0");
    assert_eq!(decimal_string(7), "7");
    assert_eq!(decimal_string(10), "10");
    assert_eq!(decimal_string(1234567890), "1234567890");
    assert_eq!(decimal_string(usize::MAX), usize::MAX.to_string());
}

#[test]
fn joins_keep_the_order() {
    assert_eq!(join2("a", "b"), "ab");
    assert_eq!(join3("a", "", "c"), "ac");
}
