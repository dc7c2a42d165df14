use thespis_impl::address::{PATH_SEGMENT, clean_name, debug_text, display_text, identity, replace_all, string_name, PEER_TYPE};

#[test]
fn module_paths_are_removed() {
    assert_eq!(clean_name("std::vec::Vec<my_crate::Sum>").unwrap(), "Vec<Sum>");
    assert_eq!(clean_name("Sum").unwrap(), "Sum");
}

#[test]
fn long_peer_type_is_shortened() {
    let full = format!("thespis_impl::remote::{}", PEER_TYPE);
    assert_eq!(clean_name(&full).unwrap(), "Peer");
}

#[test]
fn replace_scans_from_the_left() {
    assert_eq!(replace_all("aaa", "aa", "X"), "Xa");
    assert_eq!(replace_all("abcabc", "bc", ""), "aa");
    assert_eq!(replace_all("abc", "", "X"), "abc");
    assert_eq!(replace_all("", "a", "X"), "");
}

#[test]
fn names_for_logs() {
    assert_eq!(string_name(Some("foo")), " - (foo)");
    assert_eq!(string_name(None), "");
    assert_eq!(identity(7, Some("foo")), "7 - (foo)");
    assert_eq!(identity(42, None), "42");
}

#[test]
fn debug_and_display_forms() {
    assert_eq!(debug_text("Addr", "tests::Sum", 3, Some("n")), "Addr<tests::Sum> ~ 3, n");
    assert_eq!(debug_text("Mailbox", "tests::Sum", 3, None), "Mailbox<tests::Sum> ~ 3");
    assert_eq!(display_text("Sum", 3, Some("n")), "Sum (3, n)");
    assert_eq!(display_text("Sum", 3, None), "Sum (3)");
}

#[test]
fn path_segment_pattern() {
    assert_eq!(PATH_SEGMENT, "\\w+::");
    // The pattern is a valid regular expression, so a name always comes back.
    assert!(clean_name("a::b::C").is_some());
    assert_eq!(clean_name("a::b::C").unwrap(), "C");
}
