use thespis_impl::mailbox::{start, step};
use thespis_impl::{MailboxIds, RunAction, RunEvent, RunState};

#[test]
fn normal_run() {
    let (s, a) = start::<u8>();
    assert_eq!(s, RunState::Starting);
    assert!(matches!(a, RunAction::CallStarted));

    let (s, a) = step(s, RunEvent::<u8>::Started);
    assert_eq!(s, RunState::Receiving);
    assert!(matches!(a, RunAction::NextMessage));

    let (s, a) = step(s, RunEvent::Next(Some(10u8)));
    assert_eq!(s, RunState::Handling);
    assert!(matches!(a, RunAction::Handle(10)));

    let (s, a) = step(s, RunEvent::<u8>::Handled { panicked: false });
    assert_eq!(s, RunState::Receiving);
    assert!(matches!(a, RunAction::NextMessage));

    let (s, a) = step(s, RunEvent::<u8>::Next(None));
    assert_eq!(s, RunState::Stopping);
    assert!(matches!(a, RunAction::CallStopped));

    let (s, a) = step(s, RunEvent::<u8>::Stopped);
    assert_eq!(s, RunState::Ended);
    assert!(matches!(a, RunAction::EndWithActor));
}

#[test]
fn panic_gives_back_the_mailbox() {
    let (s, _) = start::<u8>();
    let (s, _) = step(s, RunEvent::<u8>::Started);
    let (s, _) = step(s, RunEvent::Next(Some(1u8)));
    let (s, a) = step(s, RunEvent::<u8>::Handled { panicked: true });
    assert_eq!(s, RunState::Ended);
    assert!(matches!(a, RunAction::EndWithMailbox));
}

#[test]
fn ids_count_up_from_one() {
    let mut ids = MailboxIds::new();
    assert_eq!(ids.next_id(), 1);
    assert_eq!(ids.next_id(), 2);
    assert_eq!(ids.next_id(), 3);
}

#[test]
fn messages_are_handled_once_in_order() {
    let (mut s, first) = start::<u8>();
    assert!(matches!(first, RunAction::CallStarted));
    let events = vec![
        RunEvent::Started,
        RunEvent::Next(Some(1u8)),
        RunEvent::Handled { panicked: false },
        RunEvent::Next(Some(2u8)),
        RunEvent::Handled { panicked: false },
        RunEvent::Next(None),
        RunEvent::Stopped,
    ];
    let mut handled = Vec::new();
    let mut stopped = 0;
    let mut last = None;
    for e in events {
        let (next, a) = step(s, e);
        s = next;
        match a {
            RunAction::Handle(m) => handled.push(m),
            RunAction::CallStopped => stopped += 1,
            _ => {}
        }
        last = Some(a);
    }
    assert_eq!(handled, vec![1, 2]);
    assert_eq!(stopped, 1);
    assert!(matches!(last, Some(RunAction::EndWithActor)));
    assert_eq!(s, RunState::Ended);
}
