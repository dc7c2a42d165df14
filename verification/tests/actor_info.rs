use thespis_impl::ActorInfo;
use thespis_impl::text::{decimal_string, last_segment_of};

#[test]
fn actor_type_is_last_path_segment() {
    let info = ActorInfo::new(3, String::from(""), "my_crate::actors::Sum");
    assert_eq!(info.actor_type(), "Sum");
    assert_eq!(info.id(), 3);
    assert_eq!(info.name(), "");
}

#[test]
fn gen_name_without_path() {
    assert_eq!(ActorInfo::gen_name("Sum"), "Sum");
    assert_eq!(ActorInfo::gen_name("a::b::Peer<x::Y>"), "Y>");
}

#[test]
fn last_segment_edge_cases() {
    assert_eq!(last_segment_of("a::"), "");
    assert_eq!(last_segment_of(":::"), ":");
    assert_eq!(last_segment_of("x:::y"), ":y");
    assert_eq!(last_segment_of(""), "");
    assert_eq!(last_segment_of("::a"), "a");
}

#[test]
fn info_text_without_name() {
    let info = ActorInfo::new(7, String::new(), "crate::Sum");
    assert_eq!(info.to_string(), "Sum: id=7");
}

#[test]
fn info_text_with_name() {
    let info = ActorInfo::new(12, String::from("adder"), "crate::Sum");
    assert_eq!(info.to_string(), "Sum: id=12, name=adder");
}

#[test]
fn span_fields() {
    let unnamed = ActorInfo::new(1, String::new(), "Sum").span();
    assert_eq!(unnamed.id, 1);
    assert_eq!(unnamed.actor_type, "Sum");
    assert_eq!(unnamed.a_name, None);

    let named = ActorInfo::new(2, String::from("n"), "Sum").span();
    assert_eq!(named.a_name, Some(String::from("n")));
}

#[test]
fn info_equality() {
    let a = ActorInfo::new(1, String::from("x"), "T");
    let b = a.clone();
    assert!(a == b);
    let c = ActorInfo::new(2, String::from("x"), "T");
    assert!(a != c);
}

#[test]
fn decimal_numbers() {
    assert_eq!(decimal_string(0), "0");
    assert_eq!(decimal_string(10), "10");
    assert_eq!(decimal_string(1234567), "1234567");
    assert_eq!(decimal_string(usize::MAX), usize::MAX.to_string());
}
