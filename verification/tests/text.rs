use openrouter_stt::text::{chars_of, compare_chars, same_ignoring_ascii_case, trim, Precedence};

#[test]
fn trim_removes_unicode_whitespace_only_at_the_ends() {
    assert_eq!(trim("  a b \n"), "a b");
    assert_eq!(trim("\u{2003}x\u{205f}"), "x");
    assert_eq!(trim(" \t "), "");
    assert_eq!(trim("\u{200b}x"), "\u{200b}x");
}

#[test]
fn ascii_case_comparison() {
    assert!(same_ignoring_ascii_case("AuTo", "auto"));
    assert!(!same_ignoring_ascii_case("autos", "auto"));
    assert!(!same_ignoring_ascii_case("ÄUTO", "äuto"));
}

#[test]
fn code_point_order() {
    let a = chars_of("ab");
    let b = chars_of("b");
    assert!(matches!(compare_chars(&a, &b), Precedence::Before));
    assert!(matches!(compare_chars(&b, &a), Precedence::After));
    assert!(matches!(compare_chars(&a, &chars_of("ab")), Precedence::Same));
    assert!(matches!(compare_chars(&chars_of("a"), &a), Precedence::Before));
}
