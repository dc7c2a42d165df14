//! The run of a mailbox: start the actor, deliver it every message in turn, stop it when the
//! stream of messages ends, and give the mailbox back when the actor panics so it can be
//! supervised.
//!
//! The run is a state machine: [`start`] gives the first action, and [`step`] the next state
//! and action for the outcome of the last action. The caller performs the actions (awaiting
//! the actor's hooks, the next message and the handling of a message) and hands back what
//! came of them.
use vstd::prelude::*;

verus! {

/// Where the run of a mailbox stands.
#[derive(Debug, Clone, Copy, PartialEq, Eq, Structural)]
pub enum RunState {
    /// Waiting for the actor's `started` hook to finish.
    Starting,
    /// Waiting for the next message.
    Receiving,
    /// Waiting for the actor to handle a message.
    Handling,
    /// Waiting for the actor's `stopped` hook to finish.
    Stopping,
    /// The run is over.
    Ended,
}

/// What came of the last action.
pub enum RunEvent<T> {
    /// The `started` hook finished.
    Started,
    /// The next message, or `None` when the stream of messages ended.
    Next(Option<T>),
    /// The actor handled the message; `panicked` when it panicked doing so.
    Handled { panicked: bool },
    /// The `stopped` hook finished.
    Stopped,
}

/// What to do next.
pub enum RunAction<T> {
    /// Run the actor's `started` hook.
    CallStarted,
    /// Wait for the next message.
    NextMessage,
    /// Have the actor handle this message, catching a panic.
    Handle(T),
    /// Run the actor's `stopped` hook.
    CallStopped,
    /// End the run and give back the actor: all addresses were dropped.
    EndWithActor,
    /// End the run and give back the mailbox: the actor panicked. The message that caused
    /// the panic is gone, other messages in the queue will still be delivered if the mailbox
    /// is started again with a new actor, and all addresses remain valid. The actor is
    /// dropped without its `stopped` hook.
    EndWithMailbox,
}

/// Whether the event is the outcome of the action that the state waits for.
pub open spec fn event_fits<T>(state: RunState, event: RunEvent<T>) -> bool {
    match state {
        RunState::Starting => event is Started,
        RunState::Receiving => event is Next,
        RunState::Handling => event is Handled,
        RunState::Stopping => event is Stopped,
        RunState::Ended => false,
    }
}

/// The first state and action of a run: run the `started` hook.
pub fn start<T>() -> (res: (RunState, RunAction<T>))
    ensures
        res.0 == RunState::Starting,
        res.1 is CallStarted,
{
    (RunState::Starting, RunAction::CallStarted)
}

/// The next state and action for the outcome of the last action.
pub fn step<T>(state: RunState, event: RunEvent<T>) -> (res: (RunState, RunAction<T>))
    requires
        event_fits(state, event),
    ensures
        res.0 == next_state(event),
        res.1 == next_action(event),
        event is Started ==> res.0 == RunState::Receiving && res.1 is NextMessage,
        event matches RunEvent::Next(Some(m)) ==> res.0 == RunState::Handling && res.1
            == RunAction::Handle(m),
        event matches RunEvent::Next(None) ==> res.0 == RunState::Stopping && res.1 is CallStopped,
        event matches RunEvent::Handled { panicked } ==> (if panicked {
            res.0 == RunState::Ended && res.1 is EndWithMailbox
        } else {
            res.0 == RunState::Receiving && res.1 is NextMessage
        }),
        event is Stopped ==> res.0 == RunState::Ended && res.1 is EndWithActor,
{
    match event {
        RunEvent::Started => (RunState::Receiving, RunAction::NextMessage),
        RunEvent::Next(Some(m)) => (RunState::Handling, RunAction::Handle(m)),
        RunEvent::Next(None) => (RunState::Stopping, RunAction::CallStopped),
        RunEvent::Handled { panicked } => {
            if panicked {
                (RunState::Ended, RunAction::EndWithMailbox)
            } else {
                (RunState::Receiving, RunAction::NextMessage)
            }
        },
        RunEvent::Stopped => (RunState::Ended, RunAction::EndWithActor),
    }
}

/// The state a run goes to for an outcome, as [`step`] takes it.
pub open spec fn next_state<T>(event: RunEvent<T>) -> RunState {
    match event {
        RunEvent::Started => RunState::Receiving,
        RunEvent::Next(Some(_)) => RunState::Handling,
        RunEvent::Next(None) => RunState::Stopping,
        RunEvent::Handled { panicked } => if panicked {
            RunState::Ended
        } else {
            RunState::Receiving
        },
        RunEvent::Stopped => RunState::Ended,
    }
}

/// The action a run takes for an outcome, as [`step`] gives it.
pub open spec fn next_action<T>(event: RunEvent<T>) -> RunAction<T> {
    match event {
        RunEvent::Started => RunAction::NextMessage,
        RunEvent::Next(Some(m)) => RunAction::Handle(m),
        RunEvent::Next(None) => RunAction::CallStopped,
        RunEvent::Handled { panicked } => if panicked {
            RunAction::EndWithMailbox
        } else {
            RunAction::NextMessage
        },
        RunEvent::Stopped => RunAction::EndWithActor,
    }
}

/// The actions a run takes, one for each outcome in `events`, as [`step`] gives them.
pub open spec fn actions_of<T>(events: Seq<RunEvent<T>>) -> Seq<RunAction<T>>
    decreases events.len(),
{
    if events.len() == 0 {
        Seq::empty()
    } else {
        seq![next_action(events[0])] + actions_of(events.drop_first())
    }
}

/// The outcomes of handling the messages `msgs` one after the other, none of them panicking:
/// each message comes from the channel, then its handling finishes.
pub open spec fn handling<T>(msgs: Seq<T>) -> Seq<RunEvent<T>>
    decreases msgs.len(),
{
    if msgs.len() == 0 {
        Seq::empty()
    } else {
        seq![RunEvent::Next(Some(msgs[0])), RunEvent::Handled { panicked: false }] + handling(
            msgs.drop_first(),
        )
    }
}

/// The actions taken while handling the messages `msgs`: handle each one, in order, then
/// wait for the next.
pub open spec fn handle_actions<T>(msgs: Seq<T>) -> Seq<RunAction<T>>
    decreases msgs.len(),
{
    if msgs.len() == 0 {
        Seq::empty()
    } else {
        seq![RunAction::Handle(msgs[0]), RunAction::NextMessage] + handle_actions(msgs.drop_first())
    }
}

/// The outcomes of a whole run that ends with the actor: `started` finishes, the messages
/// `msgs` are handled in turn, the stream ends, `stopped` finishes.
pub open spec fn normal_run<T>(msgs: Seq<T>) -> Seq<RunEvent<T>> {
    seq![RunEvent::Started] + handling(msgs) + seq![RunEvent::Next(None), RunEvent::Stopped]
}

/// The state of a run after the outcomes `events`, from `state`, as [`step`] takes it.
pub open spec fn state_after<T>(state: RunState, events: Seq<RunEvent<T>>) -> RunState
    decreases events.len(),
{
    if events.len() == 0 {
        state
    } else {
        state_after(next_state(events[0]), events.drop_first())
    }
}

/// Whether every outcome in `events` fits the state the run is in when it comes.
pub open spec fn events_fit<T>(state: RunState, events: Seq<RunEvent<T>>) -> bool
    decreases events.len(),
{
    events.len() == 0 || (event_fits(state, events[0]) && events_fit(
        next_state(events[0]),
        events.drop_first(),
    ))
}

/// A run that ended with the actor (the `stopped` hook ran) went through the end of the
/// stream of messages: the actor is only stopped when no message is left.
pub proof fn law_stopped_only_after_end<T>(events: Seq<RunEvent<T>>)
    requires
        events_fit(RunState::Starting, events),
        events.len() > 0,
        events.last() is Stopped,
    ensures
        exists|i: int| 0 <= i < events.len() && #[trigger] events[i] matches RunEvent::Next(None),
{
    let n = events.len() - 1;
    lemma_state_before_last(RunState::Starting, events);
    // Only the end of the stream leads to Stopping.
    lemma_stopping_comes_from_end(RunState::Starting, events.take(n));
}

/// A panic of the actor ends the run: no outcome can follow it, so the actor's `stopped`
/// hook never runs after a panic (the mailbox is given back instead).
pub proof fn law_panic_ends_run<T>(state: RunState, events: Seq<RunEvent<T>>, i: int)
    requires
        events_fit(state, events),
        0 <= i < events.len(),
        events[i] matches RunEvent::Handled { panicked } && panicked,
    ensures
        i == events.len() - 1,
    decreases events.len(),
{
    let rest = events.drop_first();
    if i == 0 {
        if events.len() > 1 {
            assert(next_state(events[0]) == RunState::Ended);
            assert(events_fit(RunState::Ended, rest));
            assert(!event_fits(RunState::Ended, rest[0]));
        }
    } else {
        assert(rest[i - 1] == events[i]);
        law_panic_ends_run(next_state(events[0]), rest, i - 1);
    }
}

/// The order of a run. A run that ended with the actor (its last outcome is that `stopped`
/// finished) went this way, for the messages `msgs` the channel gave, in the order it gave
/// them: the `started` hook ran first; then each message was handled exactly once, in that
/// order, the handling of one finishing before the next message was taken; then the stream
/// ended, the `stopped` hook ran once, and the run ended giving back the actor.
pub proof fn law_run_order<T>(events: Seq<RunEvent<T>>) -> (msgs: Seq<T>)
    requires
        events_fit(RunState::Starting, events),
        events.len() > 0,
        events.last() is Stopped,
    ensures
        events == normal_run(msgs),
        actions_of(events) == seq![RunAction::<T>::NextMessage] + handle_actions(msgs) + seq![
            RunAction::CallStopped,
            RunAction::EndWithActor,
        ],
{
    let rest = events.drop_first();
    assert(events[0] is Started);
    assert(rest.len() > 0);
    assert(rest.last() == events.last());
    let msgs = lemma_receiving_run(rest);
    assert(events =~= seq![RunEvent::Started] + rest);
    assert(normal_run(msgs) =~= seq![RunEvent::Started] + (handling(msgs) + seq![
        RunEvent::Next(None),
        RunEvent::Stopped,
    ]));
    lemma_actions_of_add(seq![RunEvent::<T>::Started], rest);
    lemma_actions_of_add(handling(msgs), seq![RunEvent::<T>::Next(None), RunEvent::Stopped]);
    lemma_actions_of_handling(msgs);
    lemma_actions_of_pair(RunEvent::<T>::Next(None), RunEvent::Stopped);
    lemma_actions_of_one(RunEvent::<T>::Started);
    assert(actions_of(events) =~= seq![RunAction::<T>::NextMessage] + handle_actions(msgs) + seq![
        RunAction::CallStopped,
        RunAction::EndWithActor,
    ]);
    msgs
}

/// Every sequence of messages makes a run the state machine takes: for any messages `msgs`,
/// the outcomes [`normal_run`] fit, step by step, the state the run is in, from the start to
/// the end, and the last of them is that `stopped` finished. So [`law_run_order`] speaks of the
/// run of any messages.
pub proof fn law_normal_run_fits<T>(msgs: Seq<T>)
    ensures
        events_fit(RunState::Starting, normal_run(msgs)),
        normal_run(msgs).len() > 0,
        normal_run(msgs).last() is Stopped,
        state_after(RunState::Starting, normal_run(msgs)) == RunState::Ended,
{
    let tail = seq![RunEvent::<T>::Next(None), RunEvent::Stopped];
    let rest = handling(msgs) + tail;
    lemma_handling_fits(msgs);
    let run = normal_run(msgs);
    assert(run =~= seq![RunEvent::Started] + rest);
    assert(run.drop_first() =~= rest);
    assert(run[0] is Started);
    assert(run.last() == rest.last());
    assert(rest.last() == tail.last());
}

/// Handling messages in turn, then the end of the stream and `stopped`, fits a run that waits
/// for a message, and ends it.
proof fn lemma_handling_fits<T>(msgs: Seq<T>)
    ensures
        events_fit(RunState::Receiving, handling(msgs) + seq![RunEvent::<T>::Next(None), RunEvent::Stopped]),
        state_after(RunState::Receiving, handling(msgs) + seq![RunEvent::<T>::Next(None), RunEvent::Stopped])
            == RunState::Ended,
        (handling(msgs) + seq![RunEvent::<T>::Next(None), RunEvent::Stopped]).last() is Stopped,
    decreases msgs.len(),
{
    let tail = seq![RunEvent::<T>::Next(None), RunEvent::Stopped];
    let ev = handling(msgs) + tail;
    assert(ev.last() == tail.last());
    if msgs.len() == 0 {
        assert(handling(msgs) =~= Seq::<RunEvent<T>>::empty());
        assert(ev =~= tail);
        let t1 = tail.drop_first();
        assert(t1 =~= seq![RunEvent::<T>::Stopped]);
        assert(t1.drop_first() =~= Seq::<RunEvent<T>>::empty());
        assert(events_fit(RunState::Ended, t1.drop_first()));
        assert(events_fit(RunState::Stopping, t1));
        assert(state_after(RunState::Ended, t1.drop_first()) == RunState::Ended);
        assert(state_after(RunState::Stopping, t1) == RunState::Ended);
    } else {
        lemma_handling_fits(msgs.drop_first());
        let inner = handling(msgs.drop_first()) + tail;
        let m = msgs[0];
        assert(ev =~= seq![RunEvent::Next(Some(m)), RunEvent::Handled { panicked: false }] + inner);
        let e1 = ev.drop_first();
        assert(e1 =~= seq![RunEvent::<T>::Handled { panicked: false }] + inner);
        assert(e1.drop_first() =~= inner);
        assert(e1[0] is Handled);
        assert(events_fit(RunState::Handling, e1));
        assert(state_after(RunState::Handling, e1) == RunState::Ended);
    }
}

/// From waiting for a message to the end with the actor: the messages are handled in turn,
/// then the stream ends and `stopped` finishes.
proof fn lemma_receiving_run<T>(events: Seq<RunEvent<T>>) -> (msgs: Seq<T>)
    requires
        events_fit(RunState::Receiving, events),
        events.len() > 0,
        events.last() is Stopped,
    ensures
        events == handling(msgs) + seq![RunEvent::Next(None), RunEvent::Stopped],
    decreases events.len(),
{
    let rest = events.drop_first();
    assert(event_fits(RunState::Receiving, events[0]));
    assert(events_fit(next_state(events[0]), rest));
    assert(rest.len() > 0) by {
        if rest.len() == 0 {
            assert(events.len() == 1);
            assert(events.last() == events[0]);
        }
    }
    assert(rest.last() == events.last());
    assert(event_fits(next_state(events[0]), rest[0]));
    assert(events_fit(next_state(rest[0]), rest.drop_first()));
    match events[0] {
        RunEvent::Next(None) => {
            assert(rest[0] is Stopped);
            let after = rest.drop_first();
            if after.len() > 0 {
                assert(!event_fits(RunState::Ended, after[0]));
            }
            assert(events =~= seq![RunEvent::Next(None), RunEvent::Stopped]);
            assert(handling(Seq::<T>::empty()) =~= Seq::<RunEvent<T>>::empty());
            Seq::empty()
        },
        RunEvent::Next(Some(m)) => {
            let p = rest[0]->panicked;
            if p {
                let after = rest.drop_first();
                if after.len() > 0 {
                    assert(!event_fits(RunState::Ended, after[0]));
                }
                assert(rest.len() == 1);
                assert(rest.last() == rest[0]);
                assert(false);
            }
            let after = rest.drop_first();
            assert(after.len() > 0) by {
                if after.len() == 0 {
                    assert(events.last() == rest[0]);
                }
            }
            assert(after.last() == events.last());
            let tail = lemma_receiving_run(after);
            let msgs = seq![m] + tail;
            assert(msgs.drop_first() =~= tail);
            assert(events =~= seq![RunEvent::Next(Some(m)), RunEvent::Handled { panicked: false }]
                + after);
            assert(events =~= handling(msgs) + seq![RunEvent::Next(None), RunEvent::Stopped]);
            msgs
        },
        _ => {
            assert(false);
            Seq::empty()
        },
    }
}

/// The actions of outcomes one after the other are the actions of each, one after the other.
proof fn lemma_actions_of_add<T>(a: Seq<RunEvent<T>>, b: Seq<RunEvent<T>>)
    ensures
        actions_of(a + b) == actions_of(a) + actions_of(b),
    decreases a.len(),
{
    if a.len() == 0 {
        assert(a + b =~= b);
        assert(actions_of(a) + actions_of(b) =~= actions_of(b));
    } else {
        lemma_actions_of_add(a.drop_first(), b);
        assert((a + b).drop_first() =~= a.drop_first() + b);
        assert((a + b)[0] == a[0]);
        assert(actions_of(a + b) =~= actions_of(a) + actions_of(b));
    }
}

/// The actions of one outcome.
proof fn lemma_actions_of_one<T>(e: RunEvent<T>)
    ensures
        actions_of(seq![e]) == seq![next_action(e)],
{
    assert(seq![e].drop_first() =~= Seq::<RunEvent<T>>::empty());
    assert(seq![e][0] == e);
    assert(actions_of(Seq::<RunEvent<T>>::empty()) =~= Seq::<RunAction<T>>::empty());
    assert(actions_of(seq![e]) =~= seq![next_action(e)] + actions_of(Seq::<RunEvent<T>>::empty()));
    assert(actions_of(seq![e]) =~= seq![next_action(e)]);
}

/// The actions of two outcomes.
proof fn lemma_actions_of_pair<T>(e: RunEvent<T>, f: RunEvent<T>)
    ensures
        actions_of(seq![e, f]) == seq![next_action(e), next_action(f)],
{
    assert(seq![e, f] =~= seq![e] + seq![f]);
    lemma_actions_of_add(seq![e], seq![f]);
    lemma_actions_of_one(e);
    lemma_actions_of_one(f);
    assert(seq![next_action(e)] + seq![next_action(f)] =~= seq![next_action(e), next_action(f)]);
}

/// Handling messages in turn takes the actions: handle each, then wait for the next.
proof fn lemma_actions_of_handling<T>(msgs: Seq<T>)
    ensures
        actions_of(handling(msgs)) == handle_actions(msgs),
    decreases msgs.len(),
{
    if msgs.len() == 0 {
        assert(actions_of(handling(msgs)) =~= handle_actions(msgs));
    } else {
        let e = RunEvent::Next(Some(msgs[0]));
        let f = RunEvent::<T>::Handled { panicked: false };
        lemma_actions_of_handling(msgs.drop_first());
        lemma_actions_of_add(seq![e, f], handling(msgs.drop_first()));
        lemma_actions_of_pair(e, f);
    }
}

/// The state in which the last outcome came fits it.
proof fn lemma_state_before_last<T>(state: RunState, events: Seq<RunEvent<T>>)
    requires
        events_fit(state, events),
        events.len() > 0,
    ensures
        event_fits(state_after(state, events.take(events.len() - 1)), events.last()),
    decreases events.len(),
{
    if events.len() == 1 {
        assert(events.take(0) =~= Seq::<RunEvent<T>>::empty());
    } else {
        let next = next_state(events[0]);
        lemma_state_before_last(next, events.drop_first());
        let rest = events.drop_first();
        let prefix = events.take(events.len() - 1);
        assert(rest.take(rest.len() - 1) =~= prefix.drop_first());
        assert(prefix[0] == events[0]);
        assert(state_after(state, prefix) == state_after(next, prefix.drop_first()));
        assert(rest.last() == events.last());
    }
}

/// Reaching `Stopping` from a state other than `Stopping` takes the end of the stream.
proof fn lemma_stopping_comes_from_end<T>(state: RunState, events: Seq<RunEvent<T>>)
    requires
        state != RunState::Stopping,
        state_after(state, events) == RunState::Stopping,
    ensures
        exists|i: int| 0 <= i < events.len() && #[trigger] events[i] matches RunEvent::Next(None),
    decreases events.len(),
{
    if events.len() == 0 {
    } else {
        let next = next_state(events[0]);
        if events[0] matches RunEvent::Next(None) {
            assert(events[0] matches RunEvent::Next(None));
        } else {
            assert(next != RunState::Stopping);
            lemma_stopping_comes_from_end(next, events.drop_first());
            let j = choose|j: int|
                0 <= j < events.drop_first().len() && #[trigger] events.drop_first()[j] matches RunEvent::Next(
                    None,
                );
            assert(events[j + 1] == events.drop_first()[j]);
        }
    }
}

/// The number of values of `usize`: the ids wrap around after that many.
pub open spec fn id_range() -> nat {
    usize::MAX as nat + 1
}

/// The id that the `k`-th call of [`MailboxIds::next_id`] (counting from zero) hands out,
/// on a counter that stood at `start`.
pub open spec fn nth_id(start: nat, k: nat) -> nat {
    (start + k) % id_range()
}

/// Hands out the ids of mailboxes: one number after the other, starting at one. An id tells
/// the actor apart from every other one made before it (until the numbers wrap around).
#[derive(Debug)]
pub struct MailboxIds {
    next: usize,
}

impl View for MailboxIds {
    type V = nat;

    closed spec fn view(&self) -> nat {
        self.next as nat
    }
}

impl MailboxIds {
    /// The first id will be one.
    pub fn new() -> (res: Self)
        ensures
            res@ == 1,
    {
        MailboxIds { next: 1 }
    }

    /// A new id. The counter wraps around at the end of the range of `usize`.
    pub fn next_id(&mut self) -> (res: usize)
        ensures
            res == old(self)@,
            res == nth_id(old(self)@, 0),
            final(self)@ == nth_id(old(self)@, 1),
    {
        proof {
            vstd::arithmetic::div_mod::lemma_small_mod(self.next as nat, id_range());
            if self.next < usize::MAX {
                vstd::arithmetic::div_mod::lemma_small_mod(self.next as nat + 1, id_range());
            } else {
                vstd::arithmetic::div_mod::lemma_mod_self_0(id_range() as int);
            }
        }
        let id = self.next;
        self.next = self.next.wrapping_add(1);
        id
    }
}

/// One call of [`MailboxIds::next_id`] after `k` of them hands out the id that comes next.
pub proof fn law_ids_follow(start: nat, k: nat)
    ensures
        nth_id(nth_id(start, k), 1) == nth_id(start, k + 1),
{
    let m = id_range() as int;
    vstd::arithmetic::div_mod::lemma_add_mod_noop((start + k) as int, 1, m);
    vstd::arithmetic::div_mod::lemma_small_mod(1, id_range());
}

/// No two actors get the same id: the ids of two different calls of [`MailboxIds::next_id`]
/// on one counter differ, as long as fewer calls than there are values of `usize` lie
/// between them.
pub proof fn law_ids_distinct(start: nat, i: nat, j: nat)
    requires
        i < j,
        j - i < id_range(),
    ensures
        nth_id(start, i) != nth_id(start, j),
{
    let m = id_range() as int;
    let x = (start + j) as int;
    let y = (start + i) as int;
    vstd::arithmetic::div_mod::lemma_mod_equivalence(x, y, m);
    vstd::arithmetic::div_mod::lemma_small_mod((j - i) as nat, id_range());
    assert(x - y == j - i);
}

} // verus!
