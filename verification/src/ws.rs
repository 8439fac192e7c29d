use vstd::prelude::*;
use crate::text::{decimal, push_decimal};
use std::collections::HashMap;

verus! {

broadcast use vstd::std_specs::hash::group_hash_axioms;

/// A request of a client to a service, as sent over the socket.
pub struct ServiceInputFrame {
    /// The service.
    pub s: u32,
    /// The request.
    pub r: ServiceRequestFrame,
}

/// The body of a request to a service.
pub struct ServiceRequestFrame {
    /// Request type.
    pub t: u32,
    /// Body.
    pub b: String,
}

/// A response of a service, as sent over the socket.
pub struct ServiceOutputFrame {
    /// The service.
    pub s: u32,
    /// The response.
    pub r: ServiceResponseFrame,
}

/// The body of a service response.
pub struct ServiceResponseFrame {
    /// Response type.
    pub t: u32,
    /// Status code.
    pub c: u32,
    /// Body.
    pub b: String,
}

/// A request to a service, addressed from a session.
pub struct ServiceRequest {
    pub service_id: u32,
    pub session_id: u32,
    pub msg: ServiceRequestFrame,
}

/// Routes a frame of session `session_id` to the service it names.
pub fn route_service_request(session_id: u32, frame: ServiceInputFrame) -> (r: ServiceRequest)
    ensures
        r.service_id == frame.s,
        r.session_id == session_id,
        r.msg == frame.r,
{
    ServiceRequest { service_id: frame.s, session_id, msg: frame.r }
}

/// Wraps the response of service `service_id` for the socket.
pub fn service_output(service_id: u32, response: ServiceResponseFrame) -> (r: ServiceOutputFrame)
    ensures
        r.s == service_id,
        r.r == response,
{
    ServiceOutputFrame { s: service_id, r: response }
}

/// The answer of the server to a connection request.
pub enum ConnectionResponse {
    Connected,
    Reconnected,
    ServerFull,
    Blocked,
}

/// A message that registering a client with a service sends.
pub enum ServiceNotice<A> {
    /// The service took a session with the id over: tell its previous
    /// handle that service `srvc_id` closed.
    Close { to: A, srvc_id: u32 },
    /// A new subscriber: tell the session just registered that service
    /// `srvc_id`, reached by `srvc`, is connected.
    Connection { srvc_id: u32, srvc: A },
}

/// Sessions (or service subscribers) by id, at most `limit` of them.
///
/// `A` is whatever reaches a session (an actor address).
pub struct Registry<A> {
    handles: HashMap<u32, A>,
    limit: usize,
}

impl<A> Registry<A> {
    /// The handle of each registered id.
    pub closed spec fn map(&self) -> Map<u32, A> {
        self.handles@
    }

    /// Most ids the registry takes.
    pub closed spec fn capacity(&self) -> nat {
        self.limit as nat
    }

    /// How many ids are registered.
    pub closed spec fn size(&self) -> nat {
        self.handles@.len()
    }

    /// Internal consistency: never more ids than the limit.
    pub closed spec fn wf(&self) -> bool {
        self.handles@.len() <= self.limit
    }

    /// The size is the number of registered ids.
    pub proof fn lemma_size(&self)
        ensures
            self.map().dom().finite(),
            self.map().dom().len() == self.size(),
    {
    }

    /// An empty registry that takes at most `limit` ids.
    pub fn new(limit: usize) -> (r: Registry<A>)
        ensures
            r.wf(),
            r.map() == Map::<u32, A>::empty(),
            r.capacity() == limit,
            r.size() == 0,
    {
        Registry { handles: HashMap::new(), limit }
    }

    /// Number of registered ids.
    pub fn len(&self) -> (r: usize)
        requires
            self.wf(),
        ensures
            r == self.size(),
    {
        self.handles.len()
    }

    /// The handle registered under `id`.
    pub fn get(&self, id: u32) -> (r: Option<&A>)
        requires
            self.wf(),
        ensures
            self.map().dom().contains(id) ==> r == Some(&self.map()[id]),
            !self.map().dom().contains(id) ==> r is None,
    {
        self.handles.get(&id)
    }

    /// Takes `id` out; gives back its handle, if it was there.
    pub fn disconnect(&mut self, id: u32) -> (r: Option<A>)
        requires
            old(self).wf(),
        ensures
            final(self).wf(),
            final(self).capacity() == old(self).capacity(),
            final(self).map() == old(self).map().remove(id),
            old(self).map().dom().contains(id) ==> final(self).size() + 1 == old(self).size(),
            !old(self).map().dom().contains(id) ==> final(self).size() == old(self).size(),
            old(self).map().dom().contains(id) ==> r == Some(old(self).map()[id]),
            !old(self).map().dom().contains(id) ==> r is None,
    {
        let r = self.handles.remove(&id);
        if r.is_none() {
            assert(old(self).map().remove(id) =~= old(self).map());
        }
        r
    }

    /// Registers a session: refused when the registry is full (even for an
    /// id already there), else stored, replacing any earlier handle of the
    /// id ("reconnected") or adding it ("connected").
    pub fn connect(&mut self, id: u32, handle: A) -> (r: ConnectionResponse)
        requires
            old(self).wf(),
        ensures
            final(self).wf(),
            final(self).capacity() == old(self).capacity(),
            old(self).size() >= old(self).capacity() ==> r is ServerFull && final(self).map() == old(
                self,
            ).map(),
            old(self).size() < old(self).capacity() ==> final(self).map() == old(self).map().insert(id, handle)
                && (old(self).map().dom().contains(id) ==> r is Reconnected) && (!old(
                self,
            ).map().dom().contains(id) ==> r is Connected),
    {
        if self.handles.len() >= self.limit {
            return ConnectionResponse::ServerFull;
        }
        match self.handles.insert(id, handle) {
            Some(_) => ConnectionResponse::Reconnected,
            None => ConnectionResponse::Connected,
        }
    }

    /// Moves the handle of session `from` to session `to`; refused when
    /// `from` is not registered.
    pub fn reconnect(&mut self, from: u32, to: u32) -> (r: ConnectionResponse)
        requires
            old(self).wf(),
        ensures
            final(self).wf(),
            final(self).capacity() == old(self).capacity(),
            old(self).map().dom().contains(from) ==> r is Reconnected && final(self).map() == old(
                self,
            ).map().remove(from).insert(to, old(self).map()[from]),
            !old(self).map().dom().contains(from) ==> r is Blocked && final(self).map() == old(self).map(),
    {
        match self.handles.remove(&from) {
            Some(h) => {
                self.handles.insert(to, h);
                ConnectionResponse::Reconnected
            },
            None => {
                assert(old(self).map().remove(from) =~= old(self).map());
                ConnectionResponse::Blocked
            },
        }
    }

    /// Subscribes session `sess_id` (reached by `sess`) to service
    /// `srvc_id` (reached by `srvc`) while there is room. Taking over an id
    /// tells the earlier handle that the service closed; a new subscriber
    /// is told it is connected. When full, nothing happens.
    pub fn add_client(&mut self, sess_id: u32, sess: A, srvc_id: u32, srvc: A) -> (r: Option<ServiceNotice<A>>)
        requires
            old(self).wf(),
        ensures
            final(self).wf(),
            final(self).capacity() == old(self).capacity(),
            old(self).size() >= old(self).capacity() ==> r is None && final(self).map() == old(self).map(),
            old(self).size() < old(self).capacity() ==> final(self).map() == old(self).map().insert(sess_id, sess),
            old(self).size() < old(self).capacity() && old(self).map().dom().contains(sess_id) ==> r
                == Some(ServiceNotice::Close { to: old(self).map()[sess_id], srvc_id }),
            old(self).size() < old(self).capacity() && !old(self).map().dom().contains(sess_id) ==> r
                == Some(ServiceNotice::Connection { srvc_id, srvc }),
    {
        if self.handles.len() >= self.limit {
            return None;
        }
        match self.handles.insert(sess_id, sess) {
            Some(prev) => Some(ServiceNotice::Close { to: prev, srvc_id }),
            None => Some(ServiceNotice::Connection { srvc_id, srvc }),
        }
    }
}

/// The code a websocket is closed with when its session token is invalid
/// (the "invalid data" close code).
pub const CLOSE_INVALID: u16 = 1007;

/// The reason given when a session token is invalid.
pub const INVALID_SESSION_TOKEN: u32 = 1;

/// Why a session's socket is closed.
pub struct SocketClose {
    pub code: u16,
    pub description: Option<String>,
}

/// How a session starts: with an invalid token the socket is closed at
/// once, naming the reason; else the session registers with the server.
pub fn session_start(token_valid: bool) -> (r: Option<SocketClose>)
    ensures
        token_valid ==> r is None,
        !token_valid ==> (r matches Some(c) && c.code == CLOSE_INVALID && (c.description matches Some(d)
            && d@ == decimal(INVALID_SESSION_TOKEN as nat))),
{
    if token_valid {
        None
    } else {
        let mut d = String::new();
        push_decimal(&mut d, INVALID_SESSION_TOKEN as u64);
        assert(d@ =~= decimal(INVALID_SESSION_TOKEN as nat));
        Some(SocketClose { code: CLOSE_INVALID, description: Some(d) })
    }
}

/// Whether a session keeps running after asking the server to register
/// it: a full server or a refusal stops it, and so does no answer at all.
pub fn keeps_running(answer: Option<ConnectionResponse>) -> (r: bool)
    ensures
        r == (answer matches Some(a) && (a is Connected || a is Reconnected)),
{
    match answer {
        Some(ConnectionResponse::Connected) => true,
        Some(ConnectionResponse::Reconnected) => true,
        _ => false,
    }
}

/// A message from a session's client.
pub enum ClientMessage {
    Text(String),
    Binary(Vec<u8>),
    Continuation,
    Ping(Vec<u8>),
    Pong,
    Close(Option<SocketClose>),
    Nop,
    /// The socket broke the websocket protocol.
    ProtocolError,
}

/// What a session does about a message from its client.
pub enum SessionReaction {
    /// Read a service request frame from the text and pass it on.
    RequestService(String),
    /// Answer a ping with the same bytes.
    Pong(Vec<u8>),
    /// Close the socket with this reason, then stop.
    Close(Option<SocketClose>),
    /// Stop the session.
    Stop,
    Ignore,
}

/// A client's websocket session: when the client was last heard of.
pub struct SessionActivity {
    pub last_activity: u64,
}

impl SessionActivity {
    /// Reacts to a message from the client at `now`: every message that
    /// arrives whole counts as activity; continuation frames and protocol
    /// errors stop the session.
    pub fn on_message(&mut self, msg: ClientMessage, now: u64) -> (r: SessionReaction)
        ensures
            msg is ProtocolError ==> r is Stop && final(self).last_activity == old(self).last_activity,
            !(msg is ProtocolError) ==> final(self).last_activity == now,
            match msg {
                ClientMessage::Text(t) => r == SessionReaction::RequestService(t),
                ClientMessage::Binary(_) => r is Ignore,
                ClientMessage::Continuation => r is Stop,
                ClientMessage::Ping(p) => r == SessionReaction::Pong(p),
                ClientMessage::Pong => r is Ignore,
                ClientMessage::Close(c) => r == SessionReaction::Close(c),
                ClientMessage::Nop => r is Ignore,
                ClientMessage::ProtocolError => r is Stop,
            },
    {
        match msg {
            ClientMessage::ProtocolError => SessionReaction::Stop,
            other => {
                self.last_activity = now;
                match other {
                    ClientMessage::Text(t) => SessionReaction::RequestService(t),
                    ClientMessage::Binary(_) => SessionReaction::Ignore,
                    ClientMessage::Continuation => SessionReaction::Stop,
                    ClientMessage::Ping(p) => SessionReaction::Pong(p),
                    ClientMessage::Pong => SessionReaction::Ignore,
                    ClientMessage::Close(c) => SessionReaction::Close(c),
                    ClientMessage::Nop => SessionReaction::Ignore,
                    ClientMessage::ProtocolError => SessionReaction::Stop,
                }
            },
        }
    }
}

/// A registry never holds more ids than its capacity.
pub proof fn law_registry_bounded<A>(r: Registry<A>)
    requires
        r.wf(),
    ensures
        r.map().dom().len() <= r.capacity(),
{
}

/// Disconnecting an id that was just connected, when it was free, leaves
/// the registry as it was.
pub proof fn law_connect_then_disconnect<A>(m0: Map<u32, A>, m1: Map<u32, A>, m2: Map<u32, A>, id: u32, handle: A)
    requires
        !m0.dom().contains(id),
        m1 == m0.insert(id, handle),
        m2 == m1.remove(id),
    ensures
        m2 == m0,
{
    assert(m2 =~= m0);
}

/// After a reconnection the new id reaches what the old one did, and the
/// old id is gone unless it is the new one.
pub proof fn law_reconnect_moves<A>(m0: Map<u32, A>, m1: Map<u32, A>, from: u32, to: u32)
    requires
        m0.dom().contains(from),
        m1 == m0.remove(from).insert(to, m0[from]),
    ensures
        m1.dom().contains(to),
        m1[to] == m0[from],
        from != to ==> !m1.dom().contains(from),
{
}

} // verus!
