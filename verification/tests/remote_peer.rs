use thespis_impl::remote::{
    relay_call_reply, relay_send_outcome, ConnID, ConnectionError, Incoming, MultiServiceImpl, Peer, PeerEvent,
    RelayCallOutcome, RelayEvent, ServiceID, Codecs, ThesRemoteErrKind,
};

type TestPeer = Peer<&'static str, u8, u16, &'static str, u32, u64>;

fn peer() -> TestPeer {
    Peer::new(1, "out", 2)
}

fn frame(sid: ServiceID, cid: ConnID) -> MultiServiceImpl {
    MultiServiceImpl::create(sid, cid, Codecs::CBOR, vec![1, 2])
}

fn a() -> ServiceID {
    ServiceID::from_seed(b"A")
}

fn b() -> ServiceID {
    ServiceID::from_seed(b"B")
}

fn call_id() -> ConnID {
    ConnID::in_place_with(Vec::new(), 1, 1)
}

#[test]
fn send_for_local_service() {
    let mut p = peer();
    p.register_service(a(), "handler a");
    match p.handle_incoming(&Ok(frame(a(), ConnID::null()))) {
        Incoming::SendLocal(i) => assert_eq!(*p.service_at(i), "handler a"),
        _ => panic!("expected a local send"),
    }
}

#[test]
fn registering_again_replaces_the_handler() {
    let mut p = peer();
    p.register_service(a(), "first");
    p.register_service(a(), "second");
    match p.handle_incoming(&Ok(frame(a(), ConnID::null()))) {
        Incoming::SendLocal(i) => assert_eq!(*p.service_at(i), "second"),
        _ => panic!("expected a local send"),
    }
}

#[test]
fn send_and_call_for_unknown_service() {
    let mut p = peer();
    match p.handle_incoming(&Ok(frame(a(), ConnID::null()))) {
        Incoming::SendUnknown(s) => assert!(s == a()),
        _ => panic!("expected an unknown send"),
    }
    match p.handle_incoming(&Ok(frame(b(), call_id()))) {
        Incoming::CallUnknown(s) => assert!(s == b()),
        _ => panic!("expected an unknown call"),
    }
}

#[test]
fn relayed_services() {
    let mut p = peer();
    assert!(p.register_relayed_services(vec![a(), b()], 9, 900).is_ok());
    assert_eq!(p.relay(9), Some(&900));
    assert!(matches!(p.handle_incoming(&Ok(frame(a(), ConnID::null()))), Incoming::SendRelay(9)));
    match p.handle_incoming(&Ok(frame(b(), call_id()))) {
        Incoming::CallRelay(9, c) => assert!(c == call_id()),
        _ => panic!("expected a relayed call"),
    }
}

#[test]
fn local_service_goes_before_relay() {
    let mut p = peer();
    p.register_relayed_services(vec![a()], 9, 900).unwrap();
    p.register_service(a(), "local");
    assert!(matches!(p.handle_incoming(&Ok(frame(a(), call_id()))), Incoming::CallLocal(_)));
}

#[test]
fn relay_gone() {
    let mut p = peer();
    p.register_relayed_services(vec![a()], 9, 900).unwrap();
    p.register_relayed_services(vec![b()], 10, 1000).unwrap();
    let evt = p.relay_event(RelayEvent { id: 9, evt: PeerEvent::ClosedByRemote });
    assert!(matches!(evt, Some(PeerEvent::RelayDisappeared(9))));
    assert_eq!(p.relay(9), None);
    assert!(matches!(p.handle_incoming(&Ok(frame(a(), ConnID::null()))), Incoming::SendUnknown(_)));
    assert!(matches!(p.handle_incoming(&Ok(frame(b(), ConnID::null()))), Incoming::SendRelay(10)));
}

#[test]
fn other_relay_events_change_nothing() {
    let mut p = peer();
    p.register_relayed_services(vec![a()], 9, 900).unwrap();
    let evt = p.relay_event(RelayEvent { id: 9, evt: PeerEvent::Error(ConnectionError::DeserializationFailure) });
    assert!(evt.is_none());
    assert!(matches!(p.handle_incoming(&Ok(frame(a(), ConnID::null()))), Incoming::SendRelay(9)));
}

#[test]
fn response_goes_to_its_call_once() {
    let mut p = peer();
    let out = frame(b(), call_id());
    assert!(p.handle_call(&out, 77).is_ok());
    match p.handle_incoming(&Ok(frame(a(), call_id()))) {
        Incoming::Response(c) => assert_eq!(c, 77),
        _ => panic!("expected a response"),
    }
    // The same connection id again is now an incoming call.
    assert!(matches!(p.handle_incoming(&Ok(frame(a(), call_id()))), Incoming::CallUnknown(_)));
}

#[test]
fn remote_error_and_corrupt_frames() {
    let mut p = peer();
    let err = TestPeer::prep_error(call_id(), vec![3]);
    assert!(err.service().unwrap().is_null());
    assert!(matches!(p.handle_incoming(&Ok(err)), Incoming::RemoteError));
    let broken = Err(thespis_impl::remote::ThesRemoteErr::deserialize("frame"));
    assert!(matches!(p.handle_incoming(&broken), Incoming::Corrupt));
}

#[test]
fn error_reply_on_open_connection() {
    let p = peer();
    let (msg, close) = p.error_reply(ConnID::null(), vec![4], true).unwrap();
    assert!(close);
    assert!(msg.service().unwrap().is_null());
    assert_eq!(msg.mesg(), vec![4]);
    let (_, close) = p.error_reply(ConnID::null(), vec![4], false).unwrap();
    assert!(!close);
    assert!(p.check_connected("send MS").is_ok());
}

#[test]
fn closed_connection_kind() {
    let e = thespis_impl::remote::ThesRemoteErr::connection_closed("send MS");
    assert!(matches!(e.kind(), ThesRemoteErrKind::ConnectionClosed { .. }));
}

#[test]
fn outgoing_sink_while_open() {
    let mut p = peer();
    assert_eq!(p.outgoing_mut().map(|o| *o), Some("out"));
    if let Some(o) = p.outgoing_mut() {
        *o = "other";
    }
    assert_eq!(p.outgoing_mut().map(|o| *o), Some("other"));
}

#[test]
fn closing_on_our_side() {
    let mut p = peer();
    let (evt, out, addr, listen) = p.close_connection(false);
    assert!(matches!(evt, Some(PeerEvent::Closed)));
    assert_eq!((out, addr, listen), (Some("out"), Some(1), Some(2)));
    assert!(p.outgoing_mut().is_none());
    assert_eq!(*p.self_addr(), None);
    assert!(matches!(
        p.check_connected("send MS").unwrap_err().kind(),
        ThesRemoteErrKind::ConnectionClosed { .. }
    ));
    assert!(p.error_reply(ConnID::null(), vec![4], true).is_none());
    assert!(matches!(p.handle_incoming(&Ok(frame(a(), call_id()))), Incoming::ShuttingDown));
    assert!(p.register_relayed_services(vec![a()], 9, 900).is_err());
    // Closing again tells nobody.
    let (evt, out, addr, listen) = p.close_connection(true);
    assert!(evt.is_none());
    assert_eq!((out, addr, listen), (None, None, None));
}

#[test]
fn closed_by_remote() {
    let mut p = peer();
    let (evt, _, _, _) = p.close_connection(true);
    assert!(matches!(evt, Some(PeerEvent::ClosedByRemote)));
}

#[test]
fn relay_call_replies() {
    let answer = frame(a(), call_id());
    match relay_call_reply(RelayCallOutcome::Answered(answer.clone())) {
        Ok(m) => assert!(m == answer),
        Err(_) => panic!("expected the answer"),
    }
    assert!(matches!(relay_call_reply(RelayCallOutcome::NotPassedOn), Err(ConnectionError::LostRelayBeforeCall)));
    assert!(matches!(relay_call_reply(RelayCallOutcome::NoResponse), Err(ConnectionError::LostRelayBeforeResponse)));
}

#[test]
fn relay_send_failures() {
    assert!(relay_send_outcome(Ok::<(), ()>(()), &a()).is_none());
    match relay_send_outcome(Err::<(), &str>("gone"), &a()) {
        Some(ConnectionError::LostRelayBeforeSend(sid)) => assert_eq!(sid, a().into_bytes()),
        _ => panic!("expected LostRelayBeforeSend"),
    }
}
