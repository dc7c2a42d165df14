//! An outgoing call to a remote service.
use vstd::prelude::*;

verus! {

/// Type representing an outgoing call. Used by a recipient of a remote service to hand an
/// outgoing call to the peer. Also used by a peer to call a remote service when relaying.
pub struct Call<MS> {
    mesg: MS,
}

impl<MS> Call<MS> {
    /// The message of the call.
    pub closed spec fn spec_mesg(&self) -> MS {
        self.mesg
    }

    /// Wrap a message in a call.
    pub fn new(mesg: MS) -> (res: Self)
        ensures
            res.spec_mesg() == mesg,
    {
        Call { mesg }
    }

    /// The message of the call.
    pub fn mesg(&self) -> (res: &MS)
        ensures
            *res == self.spec_mesg(),
    {
        &self.mesg
    }

    /// Unwrap the message of the call.
    pub fn into_mesg(self) -> (res: MS)
        ensures
            res == self.spec_mesg(),
    {
        self.mesg
    }
}

} // verus!
