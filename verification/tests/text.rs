use firebase_bridge::text::str_eq;

#[test]
fn equal_slices_are_equal() {
    assert!(str_eq("", ""));
    assert!(str_eq("a", "a"));
    assert!(str_eq("not-found", "not-found"));
    assert!(str_eq("gr\u{fc}\u{df}e \u{1f600}", "gr\u{fc}\u{df}e \u{1f600}"));
}

#[test]
fn different_slices_differ() {
    assert!(!str_eq("", "a"));
    assert!(!str_eq("a", ""));
    assert!(!str_eq("abc", "abd"));
    assert!(!str_eq("abc", "ab"));
    assert!(!str_eq("abc", "xbc"));
    assert!(!str_eq("e\u{301}", "\u{e9}"));
}
