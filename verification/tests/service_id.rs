use thespis_impl::remote::ServiceID;

#[test]
fn identical() {
    let sid = ServiceID::from_seed(b"hi from seed");
    let sid2 = ServiceID::from_seed(b"hi from seed");

    assert_eq!(sid, sid2);
}

#[test]
fn debug() {
    let bytes: Vec<u8> = vec![0x0, 0x1, 0x2, 0x3, 0x4, 0x5, 0x6, 0x7, 0x8, 0x9, 0xA, 0xB, 0xC, 0xD, 0xE, 0xF];
    let sid = ServiceID::try_from(bytes).unwrap();

    assert_eq!("000102030405060708090a0b0c0d0e0f", &sid.debug_string());
}
