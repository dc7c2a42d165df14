use thespis_impl::remote::{ConnID, ServiceID};

#[test]
fn null_service_id() {
    let sid = ServiceID::null();
    assert!(sid.is_null());
    assert_eq!(sid.debug_string(), "00000000000000000000000000000000");
    assert_eq!(sid.as_bytes().len(), 16);
}

#[test]
fn seeded_service_id_is_xxhash_of_the_seed() {
    // XxHash64 with seed zero of the empty input is 0xef46db3751d8e999.
    let sid = ServiceID::from_seed(b"");
    assert_eq!(sid.debug_string(), "99e9d85137db46ef0000000000000000");
    assert!(!sid.is_null());
}

#[test]
fn different_seeds_give_different_ids() {
    assert!(ServiceID::from_seed(b"ServiceAnamespace1") != ServiceID::from_seed(b"ServiceAnamespace2"));
}

#[test]
fn service_id_keeps_its_bytes() {
    let sid = ServiceID::try_from(vec![1, 2, 3]).unwrap();
    assert_eq!(sid.to_string(), "010203");
    assert_eq!(sid.clone().into_bytes(), vec![1, 2, 3]);
}

#[test]
fn conn_id_in_place() {
    let cid = ConnID::in_place_with(vec![0xff], 1, 0x0102);
    assert_eq!(cid.as_bytes(), &[0xff, 1, 0, 0, 0, 0, 0, 0, 0, 2, 1, 0, 0, 0, 0, 0, 0][..]);
}

#[test]
fn random_conn_ids() {
    let a = ConnID::default();
    let b = ConnID::default();
    assert_eq!(a.as_bytes().len(), 16);
    assert!(a != b);
    assert!(!a.is_null());
    let c = ConnID::in_place(vec![7]);
    assert_eq!(c.as_bytes().len(), 17);
    assert_eq!(c.as_bytes()[0], 7);
}

#[test]
fn seeded_conn_id_ends_in_zeros() {
    let cid = ConnID::from_seed(b"seed");
    assert_eq!(cid.as_bytes().len(), 16);
    assert_eq!(&cid.as_bytes()[8..], &[0u8; 8][..]);
}

#[test]
fn null_conn_id() {
    assert!(ConnID::null().is_null());
    assert!(!ConnID::try_from(vec![0, 1]).unwrap().is_null());
    assert!(ConnID::try_from(vec![]).unwrap().is_null());
}

#[test]
fn seeded_conn_ids_are_stable() {
    // The same data always gives the same id: XxHash64 with seed zero, then eight zeros.
    let a = ConnID::from_seed(b"seed");
    let b = ConnID::from_seed(b"seed");
    assert!(a == b);
    assert!(!a.is_null());
    assert!(ConnID::from_seed(b"seed") != ConnID::from_seed(b"other"));
    assert_eq!(ConnID::from_seed(b"").debug_string(), "99e9d85137db46ef0000000000000000");
}
