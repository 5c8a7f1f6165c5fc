use lux_aurumque::text::{decimal_string, join, trim, truncate};

#[test]
fn decimal_string_renders_like_display() {
    for n in [0u64, 7, 10, 99, 100, 12345, u64::MAX] {
        assert_eq!(decimal_string(n), n.to_string());
    }
}

#[test]
fn join_places_separators_between_parts() {
    let parts = vec!["a".to_string(), "b".to_string(), "c".to_string()];
    assert_eq!(join(&parts, " + "), "a + b + c");
    assert_eq!(join(&vec![], ", "), "");
    assert_eq!(join(&vec!["only".to_string()], ", "), "only");
}

#[test]
fn trim_removes_unicode_whitespace_at_both_ends() {
    assert_eq!(trim("  \n\tcaption text \u{3000}"), "caption text");
    assert_eq!(trim("   "), "");
    assert_eq!(trim("inner  space"), "inner  space");
    assert_eq!(trim("\u{a0}x\u{2028}"), "x");
}

#[test]
fn truncate_keeps_whole_string_when_short() {
    assert_eq!(truncate("abc", 3), "abc");
    assert_eq!(truncate("abcd", 3), "abc");
}
