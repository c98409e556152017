use fake_cdn::text::{str_equal, trim};

#[test]
fn trim_removes_unicode_whitespace_at_both_ends() {
    assert_eq!(trim("  y\n"), "y");
    assert_eq!(trim("\u{3000}\tab c\u{a0}"), "ab c");
    assert_eq!(trim("   "), "");
    assert_eq!(trim(""), "");
    assert_eq!(trim("x"), "x");
}

#[test]
fn trim_agrees_with_std() {
    for s in ["\u{2028}a\u{85}", " \u{b}q\u{c} ", "\u{200b}z", "\u{1680}é\u{205f}"] {
        assert_eq!(trim(s), s.trim());
    }
}

#[test]
fn str_equal_compares_texts() {
    assert!(str_equal("abc", "abc"));
    assert!(!str_equal("abc", "abd"));
    assert!(!str_equal("abc", "ab"));
    assert!(str_equal("", ""));
}
