use thespis_impl::remote::{Codecs, ConnID, MultiServiceImpl, ServiceID, ThesRemoteErr, ThesRemoteErrKind, HEADER_LEN};

fn sid() -> ServiceID {
    ServiceID::from_seed(b"ServiceA")
}

fn cid() -> ConnID {
    ConnID::in_place_with(Vec::new(), 5, 6)
}

#[test]
fn create_and_read_back() {
    let ms = MultiServiceImpl::create(sid(), cid(), Codecs::CBOR, vec![9, 8, 7]);
    assert_eq!(ms.len(), HEADER_LEN + 3);
    assert!(ms.service().unwrap() == sid());
    assert!(ms.conn_id().unwrap() == cid());
    assert_eq!(ms.encoding().unwrap(), Codecs::CBOR);
    assert_eq!(ms.mesg(), vec![9, 8, 7]);
}

#[test]
fn header_layout() {
    let ms = MultiServiceImpl::create(ServiceID::null(), ConnID::null(), Codecs::CBOR, vec![1]);
    let bytes = ms.into_bytes();
    assert_eq!(bytes.len(), 37);
    assert_eq!(&bytes[32..36], &[0x51, 0, 0, 0][..]);
    assert_eq!(bytes[36], 1);
}

#[test]
fn unknown_encoding() {
    let mut bytes = vec![0u8; 36];
    bytes[32] = 0x52;
    let ms = MultiServiceImpl::from_bytes(bytes);
    let err = ms.encoding().unwrap_err();
    assert!(err.kind() == ThesRemoteErrKind::Deserialize { what: String::new() });
    assert_eq!(Codecs::CBOR.code(), 0x51);
    assert!(Codecs::from_code(0x51).is_ok());
}

#[test]
fn kinds_compare_by_variant() {
    let a = ThesRemoteErrKind::ConnectionClosed { operation: String::from("a") };
    let b = ThesRemoteErrKind::ConnectionClosed { operation: String::from("b") };
    assert!(a == b);
    assert!(a != ThesRemoteErrKind::TokioIoError);
    let e = ThesRemoteErr::from(ThesRemoteErrKind::Spawn { context: String::from("x") });
    assert!(e.kind() == ThesRemoteErrKind::Spawn { context: String::new() });
    assert!(matches!(ThesRemoteErr::connection_closed("op").kind(), ThesRemoteErrKind::ConnectionClosed { operation } if operation == "op"));
}

#[test]
fn equal_messages() {
    let a = MultiServiceImpl::create(sid(), cid(), Codecs::CBOR, vec![1]);
    let b = a.clone();
    assert!(a == b);
    let c = MultiServiceImpl::create(sid(), cid(), Codecs::CBOR, vec![2]);
    assert!(a != c);
}
