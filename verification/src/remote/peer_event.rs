//! What a peer tells its observers and its remote: events and connection errors.
use vstd::prelude::*;
use crate::remote::id_bytes::copy_all;

verus! {

/// All errors that can happen when receiving messages over the wire. They are broadcast to
/// observers, and sent back to the remote, so both can act upon them.
#[derive(Debug)]
pub enum ConnectionError {
    /// A message that came in could not be read.
    DeserializationFailure,
    /// The relay was gone before a call could be passed on to it.
    LostRelayBeforeCall,
    /// The relay went away before it answered a call.
    LostRelayBeforeResponse,
    /// A message for a service we do not know. It carries the service id.
    UnkownService(Vec<u8>),
    /// The relay was gone before a send could be passed on to it. It carries the service id,
    /// as a send has no connection id.
    LostRelayBeforeSend(Vec<u8>),
}

/// The variant, as a number, and the service id it carries (empty where it carries none).
impl View for ConnectionError {
    type V = (int, Seq<u8>);

    open spec fn view(&self) -> (int, Seq<u8>) {
        match self {
            ConnectionError::DeserializationFailure => (0, Seq::empty()),
            ConnectionError::LostRelayBeforeCall => (1, Seq::empty()),
            ConnectionError::LostRelayBeforeResponse => (2, Seq::empty()),
            ConnectionError::UnkownService(sid) => (3, sid@),
            ConnectionError::LostRelayBeforeSend(sid) => (4, sid@),
        }
    }
}

impl Clone for ConnectionError {
    fn clone(&self) -> (res: Self)
        ensures
            res@ == self@,
    {
        match self {
            ConnectionError::DeserializationFailure => ConnectionError::DeserializationFailure,
            ConnectionError::LostRelayBeforeCall => ConnectionError::LostRelayBeforeCall,
            ConnectionError::LostRelayBeforeResponse => ConnectionError::LostRelayBeforeResponse,
            ConnectionError::UnkownService(sid) => ConnectionError::UnkownService(
                copy_all(sid.as_slice()),
            ),
            ConnectionError::LostRelayBeforeSend(sid) => ConnectionError::LostRelayBeforeSend(
                copy_all(sid.as_slice()),
            ),
        }
    }
}

/// Events that can happen during the lifecycle of a peer. When you see either `Closed` or
/// `ClosedByRemote`, the connection is lost and you should drop all addresses you hold for
/// the peer. You can no longer send messages over it.
#[derive(Debug)]
pub enum PeerEvent {
    /// The connection was closed on our side.
    Closed,
    /// The remote closed the connection.
    ClosedByRemote,
    /// A peer we relayed services to went away, with its actor id.
    RelayDisappeared(usize),
    /// Something went wrong with the connection.
    Error(ConnectionError),
}

impl Clone for PeerEvent {
    fn clone(&self) -> (res: Self)
        ensures
            self is Closed ==> res is Closed,
            self is ClosedByRemote ==> res is ClosedByRemote,
            self matches PeerEvent::RelayDisappeared(id) ==> (res matches PeerEvent::RelayDisappeared(
                j,
            ) && j == id),
            self matches PeerEvent::Error(e) ==> (res matches PeerEvent::Error(f) && f@ == e@),
    {
        match self {
            PeerEvent::Closed => PeerEvent::Closed,
            PeerEvent::ClosedByRemote => PeerEvent::ClosedByRemote,
            PeerEvent::RelayDisappeared(id) => PeerEvent::RelayDisappeared(*id),
            PeerEvent::Error(e) => PeerEvent::Error(e.clone()),
        }
    }
}

/// An event of a relay peer, with the actor id of that peer.
#[derive(Debug)]
pub struct RelayEvent {
    /// The actor id of the relay peer.
    pub id: usize,
    /// What happened to it.
    pub evt: PeerEvent,
}

} // verus!
