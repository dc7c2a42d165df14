//! What an address answers when a message cannot be delivered.
use vstd::prelude::*;
use std::sync::Arc;
use crate::actor_info::ActorInfo;
use crate::error::{ThesErr, ThesRes};

verus! {

/// The outcome of putting a message in the mailbox's channel: when the channel refused it,
/// the mailbox is closed (either the actor panicked, or all strong addresses were dropped).
pub fn send_outcome<E>(sent: Result<(), E>, info: Arc<ActorInfo>) -> (res: ThesRes<()>)
    ensures
        sent is Ok <==> res is Ok,
        sent is Err ==> (res matches Err(ThesErr::MailboxClosed { info: i }) && i == info),
{
    match sent {
        Ok(()) => Ok(()),
        Err(_) => Err(ThesErr::MailboxClosed { info }),
    }
}

/// The outcome of waiting for the response to a call that was delivered to the mailbox: when
/// the channel of the response was dropped, the actor stopped before it responded.
pub fn call_outcome<R, E>(response: Result<R, E>, info: Arc<ActorInfo>) -> (res: ThesRes<R>)
    ensures
        response matches Ok(r) ==> res == Ok::<R, ThesErr>(r),
        response is Err ==> (res matches Err(ThesErr::ActorStoppedBeforeResponse { info: i }) && i
            == info),
{
    match response {
        Ok(r) => Ok(r),
        Err(_) => Err(ThesErr::ActorStoppedBeforeResponse { info }),
    }
}

/// The outcome of spawning a mailbox: when the executor refused, a `Spawn` error about the
/// actor with the executor's error as its source.
pub fn spawn_outcome<T>(spawned: Result<T, futures::task::SpawnError>, info: Arc<ActorInfo>) -> (res:
    ThesRes<T>)
    ensures
        spawned matches Ok(t) ==> res == Ok::<T, ThesErr>(t),
        spawned matches Err(src) ==> (res matches Err(ThesErr::Spawn { info: i, src: s }) && i
            == info && s == src),
{
    match spawned {
        Ok(t) => Ok(t),
        Err(src) => Err(ThesErr::Spawn { info, src }),
    }
}

} // verus!
