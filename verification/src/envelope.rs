//! Envelopes: messages on their way to an actor.
use vstd::prelude::*;

verus! {

/// An envelope for sending a message to an actor, ignoring the return value.
pub struct SendEnvelope<M> {
    msg: M,
}

impl<M> SendEnvelope<M> {
    /// The message in the envelope.
    pub closed spec fn spec_msg(&self) -> M {
        self.msg
    }

    /// Put a message in an envelope.
    pub fn new(msg: M) -> (res: Self)
        ensures
            res.spec_msg() == msg,
    {
        SendEnvelope { msg }
    }

    /// Take the message out of the envelope, to be handled.
    pub fn into_msg(self) -> (res: M)
        ensures
            res == self.spec_msg(),
    {
        self.msg
    }
}

/// A recipient for messages of one type, whatever actor it delivers to. Used when a concrete
/// type is needed for an address, for example to store it as `Box<dyn Any>`.
pub struct Rcpnt<R> {
    rec: R,
}

impl<R> Rcpnt<R> {
    /// The recipient it forwards to.
    pub closed spec fn spec_rec(&self) -> R {
        self.rec
    }

    /// Wrap a recipient.
    pub fn new(rec: R) -> (res: Self)
        ensures
            res.spec_rec() == rec,
    {
        Rcpnt { rec }
    }

    /// The recipient it forwards to.
    pub fn rec(&self) -> (res: &R)
        ensures
            *res == self.spec_rec(),
    {
        &self.rec
    }

    /// The recipient it forwards to, to send or call on it.
    pub fn rec_mut(&mut self) -> (res: &mut R)
        ensures
            *res == old(self).spec_rec(),
            final(self).spec_rec() == *final(res),
    {
        &mut self.rec
    }
}

} // verus!
