//! The errors of the local actor system.
use vstd::prelude::*;
use std::sync::Arc;
use crate::actor_info::{ActorInfo, info_text};
use vstd::std_specs::cmp::PartialEqSpec;

verus! {

/// Declares `futures::task::SpawnError` (an executor refused to spawn a future) so that it
/// can be carried as the source of a spawn error.
#[verifier::external_type_specification]
#[verifier::external_body]
pub struct ExSpawnError(futures::task::SpawnError);

/// Result which has a ThesErr as error type.
pub type ThesRes<T> = Result<T, ThesErr>;

/// Errors that can happen in the actor system.
#[derive(Debug)]
pub enum ThesErr {
    /// Either the actor panicked during processing of the message or the mailbox was dropped.
    /// Only returned when doing a `call`.
    ActorStoppedBeforeResponse {
        /// Actor information.
        info: Arc<ActorInfo>,
    },
    /// You try to use a mailbox that is already closed. The mailbox can be closed by dropping
    /// all strong addresses to it or by dropping the future that is running it.
    ///
    /// When you get this error, the mailbox is gone and the address should be dropped. It will
    /// never accept messages again.
    MailboxClosed {
        /// Actor information.
        info: Arc<ActorInfo>,
    },
    /// Failed to spawn the mailbox.
    Spawn {
        /// Actor information.
        info: Arc<ActorInfo>,
        /// Source error.
        src: futures::task::SpawnError,
    },
}

/// The actor information an error is about.
pub open spec fn err_info(e: &ThesErr) -> ActorInfo {
    match e {
        ThesErr::ActorStoppedBeforeResponse { info } => **info,
        ThesErr::MailboxClosed { info } => **info,
        ThesErr::Spawn { info, .. } => **info,
    }
}

/// The variant of an error, as a number.
pub open spec fn err_variant(e: &ThesErr) -> int {
    match e {
        ThesErr::ActorStoppedBeforeResponse { .. } => 0,
        ThesErr::MailboxClosed { .. } => 1,
        ThesErr::Spawn { .. } => 2,
    }
}

/// The human readable form of an error.
pub open spec fn err_text(e: &ThesErr) -> Seq<char> {
    let i = err_info(e);
    let t = info_text(i.spec_id() as nat, i.spec_name(), i.spec_actor_type());
    match e {
        ThesErr::ActorStoppedBeforeResponse { .. } =>
            "The mailbox was closed before the result of the computation got returned upon `call`. For actor: "@
                + t,
        ThesErr::MailboxClosed { .. } => "You try to use a mailbox that is already closed. For actor: "@
            + t,
        ThesErr::Spawn { .. } => "Failed to spawn the mailbox for actor: "@ + t,
    }
}

impl ThesErr {
    /// Get to the actor information of the error.
    pub fn actor_info(&self) -> (res: &ActorInfo)
        ensures
            *res == err_info(self),
    {
        match self {
            ThesErr::ActorStoppedBeforeResponse { info } => &**info,
            ThesErr::MailboxClosed { info } => &**info,
            ThesErr::Spawn { info, .. } => &**info,
        }
    }

    /// The variant of the error, as a number.
    fn variant(&self) -> (res: u8)
        ensures
            res as int == err_variant(self),
    {
        match self {
            ThesErr::ActorStoppedBeforeResponse { .. } => 0,
            ThesErr::MailboxClosed { .. } => 1,
            ThesErr::Spawn { .. } => 2,
        }
    }

    /// The human readable form of the error.
    pub fn to_string(&self) -> (res: String)
        ensures
            res@ == err_text(self),
    {
        let mut s = match self {
            ThesErr::ActorStoppedBeforeResponse { .. } => String::from_str(
                "The mailbox was closed before the result of the computation got returned upon `call`. For actor: ",
            ),
            ThesErr::MailboxClosed { .. } => String::from_str(
                "You try to use a mailbox that is already closed. For actor: ",
            ),
            ThesErr::Spawn { .. } => String::from_str("Failed to spawn the mailbox for actor: "),
        };
        let t = self.actor_info().to_string();
        s.append(t.as_str());
        s
    }
}

/// Two errors are equal when they are the same variant about the same actor.
impl PartialEq for ThesErr {
    fn eq(&self, other: &Self) -> (res: bool) {
        self.variant() == other.variant() && self.actor_info() == other.actor_info()
    }
}

impl vstd::std_specs::cmp::PartialEqSpecImpl for ThesErr {
    open spec fn obeys_eq_spec() -> bool {
        true
    }

    open spec fn eq_spec(&self, other: &Self) -> bool {
        err_variant(self) == err_variant(other) && err_info(self).same(&err_info(other))
    }
}

impl Eq for ThesErr {

}

/// Two errors are equal exactly when they are the same kind of error about actors described
/// alike: errors of different kinds are never equal, whatever actor they are about.
pub proof fn law_error_equality(a: ThesErr, b: ThesErr)
    ensures
        a.eq_spec(&b) ==> (a is ActorStoppedBeforeResponse <==> b is ActorStoppedBeforeResponse),
        a.eq_spec(&b) ==> (a is MailboxClosed <==> b is MailboxClosed),
        a.eq_spec(&b) ==> (a is Spawn <==> b is Spawn),
        a.eq_spec(&b) ==> err_info(&a).same(&err_info(&b)),
        ((a is ActorStoppedBeforeResponse && b is ActorStoppedBeforeResponse) || (a is MailboxClosed
            && b is MailboxClosed) || (a is Spawn && b is Spawn)) && err_info(&a).same(
            &err_info(&b),
        ) ==> a.eq_spec(&b),
{
}

} // verus!
