//! The state and the decisions of a peer: a connection to another process over which actor
//! messages travel. The peer routes every incoming message to a local actor, to a relay (a
//! peer to yet another process) or back to the caller that waits for it, and it answers what
//! it cannot deliver with a connection error.
//!
//! The channels, the sink of the connection and the spawned tasks are held here as values of
//! the type parameters; the asynchronous work of sending and spawning is done by the caller of
//! these functions, which performs the action each of them returns.
use vstd::prelude::*;
use std::collections::HashMap;
use crate::remote::conn_id::ConnID;
use crate::remote::error::ThesRemoteErr;
use crate::remote::id_bytes::{all_zero, copy_all};
use crate::remote::multi_service::{Codecs, MultiServiceImpl, frame};
use crate::remote::peer_event::{ConnectionError, PeerEvent, RelayEvent};
use crate::remote::service_id::ServiceID;
use crate::remote::id_bytes::{null_id, lemma_null_id};
use crate::remote::multi_service::law_frame_round_trip;
use crate::remote::table::ByteTable;

verus! {

broadcast use vstd::std_specs::hash::group_hash_axioms;

/// What to do with a message that came in over the connection.
pub enum Incoming<C> {
    /// The message could not be read. Tell the observers and the remote about a
    /// `DeserializationFailure`, and close the connection.
    Corrupt,
    /// A connection error reported by the remote (the service id is null).
    RemoteError,
    /// A send for the local service at this index of the service table.
    SendLocal(usize),
    /// A send for a relayed service: pass it to the relay peer with this actor id.
    SendRelay(usize),
    /// A send for a service we do not know. Answer `UnkownService` with its id.
    SendUnknown(ServiceID),
    /// The response to a call we made: hand it to the channel of that call.
    Response(C),
    /// A call for the local service at this index of the service table.
    CallLocal(usize),
    /// A call for a relayed service: pass it to the relay peer with this actor id, and answer
    /// with this connection id if the relay fails.
    CallRelay(usize, ConnID),
    /// A call for a service we do not know. Answer `UnkownService` with its id.
    CallUnknown(ServiceID),
    /// A call came in while the peer is shutting down (it no longer has its own address):
    /// nothing can be done with it.
    ShuttingDown,
}

/// The relayed services after `sids` are relayed to the peer `id`.
pub open spec fn relayed_to(m: Map<Seq<u8>, usize>, sids: Seq<Seq<u8>>, id: usize) -> Map<
    Seq<u8>,
    usize,
> {
    m.union_prefer_right(Map::new(|k: Seq<u8>| sids.contains(k), |k: Seq<u8>| id))
}

/// The relayed services that stay when the relay `id` goes away.
pub open spec fn without_relay(m: Map<Seq<u8>, usize>, id: usize) -> Map<Seq<u8>, usize> {
    m.restrict(m.dom().filter(|k: Seq<u8>| m[k] != id))
}

/// The state of a connection to another process.
///
/// `Out` is the sink of the connection, `Ad` the peer's own address, `L` the handle to the
/// task that listens to the incoming stream, `H` the handler of a local service, `R` a relay
/// peer (its address and the handle to the task that listens to its events) and `C` the
/// channel on which the response to an outgoing call is delivered.
pub struct Peer<Out, Ad, L, H, R, C> {
    outgoing: Option<Out>,
    addr: Option<Ad>,
    listen_handle: Option<L>,
    services: ByteTable<H>,
    relayed: ByteTable<usize>,
    relays: HashMap<usize, R>,
    responses: ByteTable<C>,
}

impl<Out, Ad, L, H, R, C> Peer<Out, Ad, L, H, R, C> {
    /// The tables are well formed, and every relayed service points to a known relay.
    pub closed spec fn wf(&self) -> bool {
        &&& self.services.wf()
        &&& self.relayed.wf()
        &&& self.responses.wf()
        &&& forall|k: Seq<u8>| #[trigger]
            self.relayed@.dom().contains(k) ==> self.relays@.dom().contains(self.relayed@[k])
    }

    /// The local services, by service id.
    pub closed spec fn services(&self) -> Map<Seq<u8>, H> {
        self.services@
    }

    /// The service id of the local service at index `i` of the service table.
    pub closed spec fn service_key(&self, i: int) -> Seq<u8> {
        self.services.key_at(i)
    }

    /// The number of local services.
    pub closed spec fn service_count(&self) -> nat {
        self.services.spec_len()
    }

    /// The relayed services, by service id: the actor id of the relay peer.
    pub closed spec fn relayed(&self) -> Map<Seq<u8>, usize> {
        self.relayed@
    }

    /// The relay peers, by actor id.
    pub closed spec fn relays(&self) -> Map<usize, R> {
        self.relays@
    }

    /// The channels of the calls that wait for a response, by connection id.
    pub closed spec fn responses(&self) -> Map<Seq<u8>, C> {
        self.responses@
    }

    /// The sink of the connection, while the connection is open.
    pub closed spec fn outgoing(&self) -> Option<Out> {
        self.outgoing
    }

    /// The peer's own address, until the peer shuts down.
    pub closed spec fn addr(&self) -> Option<Ad> {
        self.addr
    }

    /// The handle of the task that listens to the incoming stream.
    pub closed spec fn listen_handle(&self) -> Option<L> {
        self.listen_handle
    }

    /// Create a new peer to represent a connection to some remote: its own address, the
    /// sink of the connection and the handle of the task that feeds it the incoming stream.
    pub fn new(addr: Ad, outgoing: Out, listen_handle: L) -> (res: Self)
        ensures
            res.wf(),
            res.outgoing() == Some(outgoing),
            res.addr() == Some(addr),
            res.listen_handle() == Some(listen_handle),
            res.services() == Map::<Seq<u8>, H>::empty(),
            res.relayed() == Map::<Seq<u8>, usize>::empty(),
            res.relays() == Map::<usize, R>::empty(),
            res.responses() == Map::<Seq<u8>, C>::empty(),
    {
        let res = Peer {
            outgoing: Some(outgoing),
            addr: Some(addr),
            listen_handle: Some(listen_handle),
            services: ByteTable::new(),
            relayed: ByteTable::new(),
            relays: HashMap::new(),
            responses: ByteTable::new(),
        };
        assert(res.relays@ =~= Map::<usize, R>::empty());
        res
    }

    /// The peer's own address, until the peer shuts down.
    pub fn self_addr(&self) -> (res: &Option<Ad>)
        ensures
            *res == self.addr(),
    {
        &self.addr
    }

    /// The handler of the local service at index `i` of the service table.
    pub fn service_at(&self, i: usize) -> (res: &H)
        requires
            self.wf(),
            i < self.service_count(),
        ensures
            self.services().dom().contains(self.service_key(i as int)),
            *res == self.services()[self.service_key(i as int)],
    {
        proof {
            self.services.lemma_entry(i as int);
        }
        self.services.value(i)
    }

    /// The relay peer with actor id `id`.
    pub fn relay(&self, id: usize) -> (res: Option<&R>)
        ensures
            res matches Some(r) ==> self.relays().dom().contains(id) && *r == self.relays()[id],
            res is None <==> !self.relays().dom().contains(id),
    {
        self.relays.get(&id)
    }

    /// The sink of the connection, to put a message on the wire, while the connection is
    /// open. What is done through it changes the sink in the peer, and nothing else.
    pub fn outgoing_mut(&mut self) -> (res: Option<&mut Out>)
        requires
            old(self).wf(),
        ensures
            final(self).wf(),
            res is None <==> old(self).outgoing() is None,
            res is None ==> final(self).outgoing() is None,
            res is Some ==> *res.unwrap() == old(self).outgoing().unwrap() && final(self).outgoing()
                == Some(*final(res.unwrap())),
            final(self).services() == old(self).services(),
            final(self).relayed() == old(self).relayed(),
            final(self).relays() == old(self).relays(),
            final(self).responses() == old(self).responses(),
            final(self).addr() == old(self).addr(),
            final(self).listen_handle() == old(self).listen_handle(),
    {
        self.outgoing.as_mut()
    }

    /// Close the connection, on our side (`remote` false) or because the remote closed it.
    /// The peer shuts down: it gives up the sink of the connection, its own address and the
    /// task that listens to the incoming stream, and gives them back to be closed and
    /// dropped, with the event to tell the observers (`Closed` or `ClosedByRemote`). A peer
    /// that was shut down before gives no event.
    pub fn close_connection(&mut self, remote: bool) -> (res: (
        Option<PeerEvent>,
        Option<Out>,
        Option<Ad>,
        Option<L>,
    ))
        requires
            old(self).wf(),
        ensures
            final(self).wf(),
            res.1 == old(self).outgoing(),
            res.2 == old(self).addr(),
            res.3 == old(self).listen_handle(),
            final(self).outgoing() is None,
            final(self).addr() is None,
            final(self).listen_handle() is None,
            old(self).addr() is None ==> res.0 is None,
            old(self).addr() is Some && remote ==> res.0 matches Some(PeerEvent::ClosedByRemote),
            old(self).addr() is Some && !remote ==> res.0 matches Some(PeerEvent::Closed),
            final(self).services() == old(self).services(),
            final(self).relayed() == old(self).relayed(),
            final(self).relays() == old(self).relays(),
            final(self).responses() == old(self).responses(),
    {
        let evt = if self.addr.is_none() {
            None
        } else if remote {
            Some(PeerEvent::ClosedByRemote)
        } else {
            Some(PeerEvent::Closed)
        };
        let outgoing = self.outgoing.take();
        let addr = self.addr.take();
        let listen_handle = self.listen_handle.take();
        (evt, outgoing, addr, listen_handle)
    }

    /// Register a handler for a service that you want to expose over this connection. A
    /// handler registered before for the same service is replaced.
    pub fn register_service(&mut self, sid: ServiceID, handler: H)
        requires
            old(self).wf(),
        ensures
            final(self).wf(),
            final(self).services() == old(self).services().insert(sid@, handler),
            final(self).relayed() == old(self).relayed(),
            final(self).relays() == old(self).relays(),
            final(self).responses() == old(self).responses(),
            final(self).outgoing() == old(self).outgoing(),
            final(self).addr() == old(self).addr(),
            final(self).listen_handle() == old(self).listen_handle(),
    {
        self.services.insert(sid.into_bytes(), handler);
    }

    /// Make the given services available to the remote by forwarding the requests for them
    /// to the relay peer `relay` with actor id `peer_id`. Fails with `ConnectionClosed` when
    /// the peer no longer has its own address (it is shutting down), and then changes nothing.
    pub fn register_relayed_services(&mut self, services: Vec<ServiceID>, peer_id: usize, relay: R) -> (res:
        Result<(), ThesRemoteErr>)
        requires
            old(self).wf(),
        ensures
            final(self).wf(),
            res is Err <==> old(self).addr() is None,
            res matches Err(e) ==> e@ == (0int, "register_relayed_services"@),
            res is Err ==> final(self).relayed() == old(self).relayed() && final(self).relays()
                == old(self).relays(),
            res is Ok ==> final(self).relays() == old(self).relays().insert(peer_id, relay),
            res is Ok ==> final(self).relayed() == relayed_to(
                old(self).relayed(),
                services@.map_values(|s: ServiceID| s@),
                peer_id,
            ),
            final(self).services() == old(self).services(),
            final(self).responses() == old(self).responses(),
            final(self).outgoing() == old(self).outgoing(),
            final(self).addr() == old(self).addr(),
            final(self).listen_handle() == old(self).listen_handle(),
    {
        if self.addr.is_none() {
            return Err(ThesRemoteErr::connection_closed("register_relayed_services"));
        }
        self.relays.insert(peer_id, relay);
        let ghost sids = services@.map_values(|s: ServiceID| s@);
        let ghost start = self.relayed@;
        let ghost relays_after = self.relays@;
        let mut i: usize = 0;
        while i < services.len()
            invariant
                i <= services@.len(),
                self.relays@ == relays_after,
                relays_after == old(self).relays@.insert(peer_id, relay),
                start == old(self).relayed@,
                self.services == old(self).services,
                self.responses == old(self).responses,
                self.outgoing == old(self).outgoing,
                self.addr == old(self).addr,
                self.listen_handle == old(self).listen_handle,
                old(self).wf(),
                sids == services@.map_values(|s: ServiceID| s@),
                self.relayed.wf(),
                self.relayed@ == relayed_to(start, sids.subrange(0, i as int), peer_id),
                self.relays@.dom().contains(peer_id),
                forall|k: Seq<u8>| #[trigger]
                    self.relayed@.dom().contains(k) ==> self.relays@.dom().contains(
                        self.relayed@[k],
                    ),
            decreases services@.len() - i,
        {
            let key = copy_all(services[i].as_bytes());
            self.relayed.insert(key, peer_id);
            proof {
                let pre = sids.subrange(0, i as int);
                let post = sids.subrange(0, i + 1);
                assert(post =~= pre.push(sids[i as int]));
                assert forall|k: Seq<u8>| post.contains(k) <==> pre.contains(k) || k == sids[i as int] by {
                    if post.contains(k) {
                        let j = choose|j: int| 0 <= j < post.len() && post[j] == k;
                        if j < i {
                            assert(pre[j] == k);
                        }
                    }
                    if pre.contains(k) {
                        let j = choose|j: int| 0 <= j < pre.len() && pre[j] == k;
                        assert(post[j] == k);
                    }
                    if k == sids[i as int] {
                        assert(post[i as int] == k);
                    }
                }
                assert(self.relayed@ =~= relayed_to(start, post, peer_id));
            }
            i = i + 1;
        }
        assert(sids.subrange(0, services@.len() as int) =~= sids);
        Ok(())
    }

    /// Whether the connection is open: an outgoing message can be put on the wire. Fails with
    /// `ConnectionClosed` for `operation` when the connection is closed.
    pub fn check_connected(&self, operation: &str) -> (res: Result<(), ThesRemoteErr>)
        ensures
            res is Ok <==> self.outgoing() is Some,
            res matches Err(e) ==> e@ == (0int, operation@),
    {
        if self.outgoing.is_some() {
            Ok(())
        } else {
            Err(ThesRemoteErr::connection_closed(operation))
        }
    }

    /// The message that carries a connection error to the remote: a null service id, the
    /// connection id concerned, the CBOR encoding and the serialized error.
    pub fn prep_error(cid: ConnID, serialized: Vec<u8>) -> (res: MultiServiceImpl)
        ensures
            res@ == frame(null_id(), cid@, Codecs::CBOR, serialized@),
    {
        MultiServiceImpl::create(ServiceID::null(), cid, Codecs::CBOR, serialized)
    }

    /// How to send a connection error (already serialized) about the connection `cid` to the
    /// remote: nothing when the connection is closed; else the message to send and whether
    /// the peer must close the connection afterwards (when `close` is asked and the peer
    /// still has its address to tell itself so).
    pub fn error_reply(&self, cid: ConnID, serialized: Vec<u8>, close: bool) -> (res: Option<
        (MultiServiceImpl, bool),
    >)
        ensures
            res is None <==> self.outgoing() is None,
            res matches Some((m, c)) ==> m@ == frame(null_id(), cid@, Codecs::CBOR, serialized@)
                && c == (close && self.addr() is Some),
    {
        if self.outgoing.is_none() {
            None
        } else {
            let msg = Self::prep_error(cid, serialized);
            Some((msg, close && self.addr.is_some()))
        }
    }

    /// An outgoing call: remember the channel on which its response is to be delivered,
    /// under the connection id of the message, and check that the message can go out. The
    /// channel is remembered even if the connection is closed.
    pub fn handle_call(&mut self, mesg: &MultiServiceImpl, sender: C) -> (res: Result<
        (),
        ThesRemoteErr,
    >)
        requires
            old(self).wf(),
            mesg@.len() >= 32,
        ensures
            final(self).wf(),
            final(self).responses() == old(self).responses().insert(mesg@.subrange(16, 32), sender),
            res is Ok <==> old(self).outgoing() is Some,
            res matches Err(e) ==> e@ == (0int, "send MS"@),
            final(self).services() == old(self).services(),
            final(self).relayed() == old(self).relayed(),
            final(self).relays() == old(self).relays(),
            final(self).outgoing() == old(self).outgoing(),
            final(self).addr() == old(self).addr(),
            final(self).listen_handle() == old(self).listen_handle(),
    {
        let conn_id = match mesg.conn_id() {
            Ok(c) => c,
            Err(e) => {
                return Err(e);
            },
        };
        self.responses.insert(conn_id.into_bytes(), sender);
        self.check_connected("send MS")
    }

    /// An event of a relay peer. When the relay closed (on either side), stop relaying its
    /// services, forget it, and give back the event to tell the observers.
    pub fn relay_event(&mut self, re: RelayEvent) -> (res: Option<PeerEvent>)
        requires
            old(self).wf(),
        ensures
            final(self).wf(),
            (re.evt is Closed || re.evt is ClosedByRemote) ==> {
                &&& res matches Some(PeerEvent::RelayDisappeared(id)) && id == re.id
                &&& final(self).relayed() == without_relay(old(self).relayed(), re.id)
                &&& final(self).relays() == old(self).relays().remove(re.id)
            },
            !(re.evt is Closed || re.evt is ClosedByRemote) ==> {
                &&& res is None
                &&& final(self).relayed() == old(self).relayed()
                &&& final(self).relays() == old(self).relays()
            },
            final(self).services() == old(self).services(),
            final(self).responses() == old(self).responses(),
            final(self).outgoing() == old(self).outgoing(),
            final(self).addr() == old(self).addr(),
            final(self).listen_handle() == old(self).listen_handle(),
    {
        match re.evt {
            PeerEvent::Closed | PeerEvent::ClosedByRemote => {
                let ghost before = self.relayed@;
                self.relayed.retain_not(re.id);
                self.relays.remove(&re.id);
                proof {
                    assert forall|k: Seq<u8>| #[trigger]
                        self.relayed@.dom().contains(k) implies self.relays@.dom().contains(
                        self.relayed@[k],
                    ) by {
                        assert(before.dom().contains(k));
                        assert(before[k] != re.id);
                    }
                }
                Some(PeerEvent::RelayDisappeared(re.id))
            },
            _ => None,
        }
    }

    /// Decide what to do with a message that came in over the connection, or with the error
    /// the incoming stream gave instead. Only the response to a call changes the peer: its
    /// channel is taken out of the table of calls waiting for a response.
    ///
    /// The service id tells whether the message is for this peer (null: a connection error),
    /// for a local actor or for a relayed one, based on the tables. The connection id tells a
    /// send (null) from a call (unknown) and from a response (one we are waiting for).
    pub fn handle_incoming(&mut self, incoming: &Result<MultiServiceImpl, ThesRemoteErr>) -> (res:
        Incoming<C>)
        requires
            old(self).wf(),
            incoming matches Ok(f) ==> f@.len() >= 32,
        ensures
            final(self).wf(),
            final(self).services() == old(self).services(),
            final(self).relayed() == old(self).relayed(),
            final(self).relays() == old(self).relays(),
            final(self).outgoing() == old(self).outgoing(),
            final(self).addr() == old(self).addr(),
            final(self).listen_handle() == old(self).listen_handle(),
            incoming is Err ==> res is Corrupt && final(self).responses() == old(self).responses(),
            incoming matches Ok(f) ==> {
                let sid = f@.subrange(0, 16);
                let cid = f@.subrange(16, 32);
                let s = old(self);
                &&& all_zero(sid) ==> res is RemoteError
                &&& !all_zero(sid) && all_zero(cid) && s.services().dom().contains(sid) ==> (
                res matches Incoming::SendLocal(i) && i < s.service_count() && s.service_key(
                    i as int,
                ) == sid)
                &&& !all_zero(sid) && all_zero(cid) && !s.services().dom().contains(sid)
                    && s.relayed().dom().contains(sid) ==> (res matches Incoming::SendRelay(id)
                    && id == s.relayed()[sid] && s.relays().dom().contains(id))
                &&& !all_zero(sid) && all_zero(cid) && !s.services().dom().contains(sid)
                    && !s.relayed().dom().contains(sid) ==> (res matches Incoming::SendUnknown(
                    u,
                ) && u@ == sid)
                &&& !all_zero(sid) && !all_zero(cid) && s.responses().dom().contains(cid) ==> (
                res matches Incoming::Response(c) && c == s.responses()[cid]
                    && final(self).responses() == s.responses().remove(cid))
                &&& !(!all_zero(sid) && !all_zero(cid) && s.responses().dom().contains(cid))
                    ==> final(self).responses() == s.responses()
                &&& !all_zero(sid) && !all_zero(cid) && !s.responses().dom().contains(cid)
                    && s.addr() is None ==> res is ShuttingDown
                &&& !all_zero(sid) && !all_zero(cid) && !s.responses().dom().contains(cid)
                    && s.addr() is Some && s.services().dom().contains(sid) ==> (
                res matches Incoming::CallLocal(i) && i < s.service_count() && s.service_key(
                    i as int,
                ) == sid)
                &&& !all_zero(sid) && !all_zero(cid) && !s.responses().dom().contains(cid)
                    && s.addr() is Some && !s.services().dom().contains(sid)
                    && s.relayed().dom().contains(sid) ==> (res matches Incoming::CallRelay(
                    id,
                    c,
                ) && id == s.relayed()[sid] && s.relays().dom().contains(id) && c@ == cid)
                &&& !all_zero(sid) && !all_zero(cid) && !s.responses().dom().contains(cid)
                    && s.addr() is Some && !s.services().dom().contains(sid)
                    && !s.relayed().dom().contains(sid) ==> (res matches Incoming::CallUnknown(
                    u,
                ) && u@ == sid)
            },
    {
        let frame = match incoming {
            Ok(f) => f,
            Err(_) => {
                return Incoming::Corrupt;
            },
        };
        let sid = match frame.service() {
            Ok(s) => s,
            Err(_) => {
                return Incoming::Corrupt;
            },
        };
        let cid = match frame.conn_id() {
            Ok(c) => c,
            Err(_) => {
                return Incoming::Corrupt;
            },
        };
        if sid.is_null() {
            Incoming::RemoteError
        } else if cid.is_null() {
            match self.services.find(sid.as_bytes()) {
                Some(i) => Incoming::SendLocal(i),
                None => match self.relayed.find(sid.as_bytes()) {
                    Some(j) => {
                        proof {
                            self.relayed.lemma_entry(j as int);
                        }
                        Incoming::SendRelay(*self.relayed.value(j))
                    },
                    None => Incoming::SendUnknown(sid),
                },
            }
        } else {
            match self.responses.remove(cid.as_bytes()) {
                Some(channel) => Incoming::Response(channel),
                None => {
                    if self.addr.is_none() {
                        Incoming::ShuttingDown
                    } else {
                        match self.services.find(sid.as_bytes()) {
                            Some(i) => Incoming::CallLocal(i),
                            None => match self.relayed.find(sid.as_bytes()) {
                                Some(j) => {
                                    proof {
                                        self.relayed.lemma_entry(j as int);
                                    }
                                    Incoming::CallRelay(*self.relayed.value(j), cid)
                                },
                                None => Incoming::CallUnknown(sid),
                            },
                        }
                    }
                },
            }
        }
    }
}

/// What came of a call passed on to a relay peer.
pub enum RelayCallOutcome {
    /// The relay did not take the call.
    NotPassedOn,
    /// The relay took the call, but went away before it answered.
    NoResponse,
    /// The relay answered with this message.
    Answered(MultiServiceImpl),
}

/// What to send back over our connection for a call that was passed on to a relay: the
/// relay's answer as it came, or else the connection error to send about the call
/// (`LostRelayBeforeCall` when the relay did not take it, `LostRelayBeforeResponse` when it
/// went away before answering).
pub fn relay_call_reply(outcome: RelayCallOutcome) -> (res: Result<MultiServiceImpl, ConnectionError>)
    ensures
        outcome matches RelayCallOutcome::Answered(m) ==> (res matches Ok(r) && r == m),
        outcome is NotPassedOn ==> (res matches Err(e) && e is LostRelayBeforeCall),
        outcome is NoResponse ==> (res matches Err(e) && e is LostRelayBeforeResponse),
{
    match outcome {
        RelayCallOutcome::NotPassedOn => Err(ConnectionError::LostRelayBeforeCall),
        RelayCallOutcome::NoResponse => Err(ConnectionError::LostRelayBeforeResponse),
        RelayCallOutcome::Answered(m) => Ok(m),
    }
}

/// What to report when a send was passed on to a relay: nothing when the relay took it, else
/// `LostRelayBeforeSend` with the service id of the send (a send has no connection id).
pub fn relay_send_outcome<E>(sent: Result<(), E>, sid: &ServiceID) -> (res: Option<ConnectionError>)
    ensures
        sent is Ok ==> res is None,
        sent is Err ==> (res matches Some(ConnectionError::LostRelayBeforeSend(b)) && b@ == sid@),
{
    match sent {
        Ok(()) => None,
        Err(_) => Some(ConnectionError::LostRelayBeforeSend(copy_all(sid.as_bytes()))),
    }
}

/// A connection error that one peer sends ([`Peer::prep_error`]) reads as a connection error
/// of the remote on the other side ([`Peer::handle_incoming`] gives `RemoteError`): its
/// service id is null, and it carries the connection id concerned.
pub proof fn law_error_frame_is_remote_error(cid: Seq<u8>, serialized: Seq<u8>)
    requires
        cid.len() == 16,
    ensures
        frame(null_id(), cid, Codecs::CBOR, serialized).len() >= 32,
        all_zero(frame(null_id(), cid, Codecs::CBOR, serialized).subrange(0, 16)),
        frame(null_id(), cid, Codecs::CBOR, serialized).subrange(16, 32) == cid,
{
    lemma_null_id();
    law_frame_round_trip(null_id(), cid, Codecs::CBOR, serialized);
}

/// The response to a call reaches the channel of that call, once: after the call is
/// registered ([`Peer::handle_call`]) the channel waits under the call's connection id, and
/// after the response came in ([`Peer::handle_incoming`] gives `Response`) it no longer does.
pub proof fn law_response_reaches_its_call<C>(responses: Map<Seq<u8>, C>, cid: Seq<u8>, channel: C)
    ensures
        responses.insert(cid, channel).dom().contains(cid),
        responses.insert(cid, channel)[cid] == channel,
        !responses.insert(cid, channel).remove(cid).dom().contains(cid),
        forall|k: Seq<u8>|
            k != cid && responses.dom().contains(k) ==> #[trigger] responses.insert(
                cid,
                channel,
            ).remove(cid).dom().contains(k) && responses.insert(cid, channel).remove(cid)[k]
                == responses[k],
{
}

/// Services relayed to a peer go to that peer, and the others keep their relay.
pub proof fn law_relayed_services_route(m: Map<Seq<u8>, usize>, sids: Seq<Seq<u8>>, id: usize)
    ensures
        forall|k: Seq<u8>| #[trigger]
            sids.contains(k) ==> relayed_to(m, sids, id).dom().contains(k) && relayed_to(
                m,
                sids,
                id,
            )[k] == id,
        forall|k: Seq<u8>|
            !sids.contains(k) && m.dom().contains(k) ==> #[trigger] relayed_to(
                m,
                sids,
                id,
            ).dom().contains(k) && relayed_to(m, sids, id)[k] == m[k],
{
}

/// When a relay goes away, no service is relayed to it any more, and the services of other
/// relays stay where they were.
pub proof fn law_relay_gone(m: Map<Seq<u8>, usize>, id: usize)
    ensures
        forall|k: Seq<u8>| #[trigger]
            without_relay(m, id).dom().contains(k) ==> without_relay(m, id)[k] != id,
        forall|k: Seq<u8>|
            m.dom().contains(k) && m[k] != id ==> #[trigger] without_relay(m, id).dom().contains(k)
                && without_relay(m, id)[k] == m[k],
{
}

} // verus!
