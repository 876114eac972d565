//! The per-connection hooks: each applies one lifecycle event to the registry
//! and returns the messages to broadcast to every open connection.
use crate::protocol::{bruteforcing_update, discovery, watching_update, WsMessage, WsMessageType};
use crate::registry::{bruteforcing_ids, fresh_user, Registry, User};
use vstd::prelude::*;

verus! {

/// A lifecycle event of one connection, as the transport reports it.
pub enum Event {
    /// The connection `id` was opened.
    Open(u32),
    /// The connection `id` was closed by its peer.
    Close(u32),
    /// The channel of connection `id` failed.
    Error(u32),
    /// The connection `id` sent a message; `None` when it could not be decoded.
    Message(u32, Option<WsMessage>),
}

/// The number of open connections flagged as probing.
pub open spec fn bruteforcing(m: Map<u32, User>) -> nat {
    bruteforcing_ids(m).len()
}

/// The flag that a decoded message asks its sender's entry to take, if any.
pub open spec fn requested_flag(msg: Option<WsMessage>) -> Option<bool> {
    match msg {
        Some(WsMessage { msg_type: WsMessageType::Start, .. }) => Some(true),
        Some(WsMessage { msg_type: WsMessageType::Stop, .. }) => Some(false),
        _ => None,
    }
}

/// The registry after `e`.
pub open spec fn next_state(m: Map<u32, User>, e: Event) -> Map<u32, User> {
    match e {
        Event::Open(id) => m.insert(id, fresh_user()),
        Event::Close(id) => m.remove(id),
        Event::Error(id) => m.remove(id),
        Event::Message(id, msg) => match requested_flag(msg) {
            Some(flag) => if m.contains_key(id) {
                m.insert(id, User { is_bruteforcing: flag })
            } else {
                m
            },
            None => m,
        },
    }
}

/// Both counters of a registry, the open connections first.
pub open spec fn counters(m: Map<u32, User>) -> Seq<WsMessage> {
    seq![watching_update(m.len() as u64), bruteforcing_update(bruteforcing(m) as u64)]
}

/// What is broadcast when `e` happens to registry `m`, in order.
pub open spec fn broadcasts(m: Map<u32, User>, e: Event) -> Seq<WsMessage> {
    match e {
        Event::Message(id, msg) => match msg {
            Some(WsMessage { msg_type: WsMessageType::New, text: Some(t), .. }) => seq![discovery(t)],
            _ => if requested_flag(msg) is Some && m.contains_key(id) {
                seq![bruteforcing_update(bruteforcing(next_state(m, e)) as u64)]
            } else {
                Seq::empty()
            },
        },
        _ => counters(next_state(m, e)),
    }
}

/// Whether a request for `resource` is upgraded to a socket; any other
/// resource is answered with "not found".
pub fn is_socket_resource(resource: &str) -> (r: bool)
    ensures
        r == (resource@ == "/ws"@),
{
    resource.to_owned() == "/ws".to_owned()
}

/// The state that all connections share: the registry of open connections.
pub struct Coordinator {
    registry: Registry,
}

impl View for Coordinator {
    type V = Map<u32, User>;

    closed spec fn view(&self) -> Map<u32, User> {
        self.registry@
    }
}

impl Coordinator {
    /// A coordinator with no open connection.
    pub fn new() -> (r: Coordinator)
        ensures
            r@ == Map::<u32, User>::empty(),
    {
        Coordinator { registry: Registry::new() }
    }

    /// The registry holds finitely many entries.
    pub proof fn lemma_finite(&self)
        ensures
            self@.dom().finite(),
    {
        self.registry.lemma_finite();
    }

    /// The number of open connections.
    pub fn watching_count(&self) -> (r: u64)
        ensures
            r == self@.len(),
    {
        self.registry.watching_count()
    }

    /// The number of open connections flagged as probing.
    pub fn bruteforcing_count(&self) -> (r: u64)
        ensures
            r == bruteforcing(self@),
            r <= self@.len(),
    {
        self.registry.bruteforcing_count()
    }

    /// Both counters, read from the registry as it stands.
    fn current_counters(&self) -> (out: Vec<WsMessage>)
        ensures
            out@ == counters(self@),
    {
        let watching = self.registry.watching_count();
        let bruteforcing = self.registry.bruteforcing_count();
        vec![WsMessage::users_watching(watching), WsMessage::users_bruteforcing(bruteforcing)]
    }

    /// Connection `id` opened: it is registered as not probing, and both
    /// counters are broadcast.
    pub fn on_open(&mut self, id: u32) -> (out: Vec<WsMessage>)
        ensures
            final(self)@ == next_state(old(self)@, Event::Open(id)),
            out@ == broadcasts(old(self)@, Event::Open(id)),
    {
        self.registry.insert(id);
        self.current_counters()
    }

    /// Connection `id` was closed: it leaves the registry, and both counters
    /// are broadcast.
    pub fn on_close(&mut self, id: u32) -> (out: Vec<WsMessage>)
        ensures
            final(self)@ == next_state(old(self)@, Event::Close(id)),
            out@ == broadcasts(old(self)@, Event::Close(id)),
    {
        self.registry.remove(id);
        self.current_counters()
    }

    /// The channel of connection `id` failed: handled as a close.
    pub fn on_error(&mut self, id: u32) -> (out: Vec<WsMessage>)
        ensures
            final(self)@ == next_state(old(self)@, Event::Error(id)),
            out@ == broadcasts(old(self)@, Event::Error(id)),
    {
        self.registry.remove(id);
        self.current_counters()
    }

    /// Sets the flag of `id`; when `id` is open, the probing counter is
    /// broadcast, whether or not the flag changed.
    fn flag(&mut self, id: u32, value: bool) -> (out: Vec<WsMessage>)
        ensures
            final(self)@ == if old(self)@.contains_key(id) {
                old(self)@.insert(id, User { is_bruteforcing: value })
            } else {
                old(self)@
            },
            out@ == if old(self)@.contains_key(id) {
                seq![bruteforcing_update(bruteforcing(final(self)@) as u64)]
            } else {
                Seq::empty()
            },
    {
        if self.registry.set_bruteforcing(id, value) {
            let n = self.registry.bruteforcing_count();
            vec![WsMessage::users_bruteforcing(n)]
        } else {
            Vec::new()
        }
    }

    /// Connection `id` sent `msg` (`None`: it could not be decoded).
    /// A discovery with a text is relayed as is; `Start` and `Stop` set the
    /// sender's flag; anything else is dropped without effect.
    pub fn on_message(&mut self, id: u32, msg: Option<WsMessage>) -> (out: Vec<WsMessage>)
        ensures
            final(self)@ == next_state(old(self)@, Event::Message(id, msg)),
            out@ == broadcasts(old(self)@, Event::Message(id, msg)),
    {
        match msg {
            Some(m) => match m.msg_type {
                WsMessageType::New => match m.text {
                    Some(t) => vec![WsMessage::new_item(t)],
                    None => Vec::new(),
                },
                WsMessageType::Start => self.flag(id, true),
                WsMessageType::Stop => self.flag(id, false),
                _ => Vec::new(),
            },
            None => Vec::new(),
        }
    }
}

} // verus!
