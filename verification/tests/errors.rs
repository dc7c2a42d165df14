use std::sync::Arc;
use thespis_impl::addr::{call_outcome, send_outcome};
use thespis_impl::{ActorInfo, ThesErr};

fn info() -> Arc<ActorInfo> {
    Arc::new(ActorInfo::new(5, String::from("sum"), "tests::Sum"))
}

#[test]
fn stopped_before_response_text() {
    let e = ThesErr::ActorStoppedBeforeResponse { info: info() };
    assert_eq!(
        e.to_string(),
        "The mailbox was closed before the result of the computation got returned upon `call`. For actor: Sum: id=5, name=sum"
    );
}

#[test]
fn mailbox_closed_text() {
    let e = ThesErr::MailboxClosed { info: info() };
    assert_eq!(e.to_string(), "You try to use a mailbox that is already closed. For actor: Sum: id=5, name=sum");
    assert_eq!(e.actor_info().id(), 5);
}

#[test]
fn errors_equal_by_variant_and_actor() {
    let a = ThesErr::MailboxClosed { info: info() };
    let b = ThesErr::MailboxClosed { info: info() };
    let c = ThesErr::ActorStoppedBeforeResponse { info: info() };
    let d = ThesErr::MailboxClosed { info: Arc::new(ActorInfo::new(6, String::from("sum"), "Sum")) };
    assert!(a == b);
    assert!(a != c);
    assert!(a != d);
}

#[test]
fn refused_send_is_mailbox_closed() {
    let r = send_outcome(Err::<(), &str>("disconnected"), info());
    assert!(matches!(r, Err(ThesErr::MailboxClosed { .. })));
    assert!(send_outcome(Ok::<(), &str>(()), info()).is_ok());
}

#[test]
fn dropped_response_is_actor_stopped() {
    let r = call_outcome(Err::<u8, ()>(()), info());
    assert!(matches!(r, Err(ThesErr::ActorStoppedBeforeResponse { .. })));
    assert_eq!(call_outcome(Ok::<u8, ()>(15), info()).unwrap(), 15);
}
