use std::sync::Arc;
use thespis_impl::rx_strong::{poll_next, ChanPoll, RxPoll};
use thespis_impl::strong_count::{upgrade, weak_send_gate};
use thespis_impl::{ActorInfo, StrongCount, ThesErr};

fn info() -> Arc<ActorInfo> {
    Arc::new(ActorInfo::new(1, String::new(), "Sum"))
}

#[test]
fn count_up_and_down() {
    let mut c = StrongCount::new();
    assert_eq!(c.count(), 0);
    assert_eq!(c.increment(), 0);
    assert_eq!(c.increment(), 1);
    assert!(!c.decrement());
    assert!(c.decrement());
    assert_eq!(c.count(), 0);
}

#[test]
fn upgrade_while_strong_exists() {
    let mut c = StrongCount::new();
    c.increment();
    assert!(upgrade(&mut c, info()).is_ok());
    assert_eq!(c.count(), 2);
}

#[test]
fn closed_stays_closed() {
    let mut c = StrongCount::new();
    c.increment();
    assert!(c.decrement());
    // no strong address is left: upgrading fails, again and again
    assert!(!c.try_upgrade());
    match upgrade(&mut c, info()) {
        Err(ThesErr::MailboxClosed { info: i }) => assert_eq!(i.id(), 1),
        _ => panic!("upgrade should fail"),
    }
    assert_eq!(c.count(), 0);
    assert!(weak_send_gate(&c, info()).is_some());
}

#[test]
fn weak_send_while_strong_exists() {
    let mut c = StrongCount::new();
    c.increment();
    assert!(weak_send_gate(&c, info()).is_none());
}

#[test]
fn stream_ends_when_no_strong_and_empty() {
    let c = StrongCount::new();
    assert!(matches!(poll_next(ChanPoll::<u8>::Pending, &c), RxPoll::Ready(None)));
}

#[test]
fn queued_messages_still_delivered_after_last_drop() {
    let mut c = StrongCount::new();
    c.increment();
    assert!(c.decrement());
    assert!(matches!(poll_next(ChanPoll::Ready(Some(7u8)), &c), RxPoll::Ready(Some(7))));
}

#[test]
fn alive_mailbox_waits() {
    let mut c = StrongCount::new();
    c.increment();
    assert!(matches!(poll_next(ChanPoll::<u8>::Pending, &c), RxPoll::PendingWakeOnZero));
    assert!(matches!(poll_next(ChanPoll::<u8>::Ready(None), &c), RxPoll::Ready(None)));
}
