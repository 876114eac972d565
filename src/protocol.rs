//! Messages exchanged between the server and its clients.
use vstd::prelude::*;

verus! {

/// The kind of a wire message.
#[derive(Clone, Copy, Debug, PartialEq, Eq, Structural)]
pub enum WsMessageType {
    /// Server to client: how many connections are flagged as probing.
    UsersBruteforcing,
    /// Server to client: how many connections are open.
    UsersWatching,
    /// Client to server: the sender starts probing.
    Start,
    /// Client to server: the sender stops probing.
    Stop,
    /// Both ways: a discovered item, relayed verbatim to every client.
    New,
}

/// One wire message: a kind and the optional payloads that kinds carry.
#[derive(Clone, Debug, PartialEq, Eq)]
pub struct WsMessage {
    pub msg_type: WsMessageType,
    pub text: Option<String>,
    pub number: Option<u64>,
}

/// The counter message that reports how many connections are open.
pub open spec fn watching_update(n: u64) -> WsMessage {
    WsMessage { msg_type: WsMessageType::UsersWatching, text: None, number: Some(n) }
}

/// The counter message that reports how many connections are probing.
pub open spec fn bruteforcing_update(n: u64) -> WsMessage {
    WsMessage { msg_type: WsMessageType::UsersBruteforcing, text: None, number: Some(n) }
}

/// The relay of a discovered item.
pub open spec fn discovery(text: String) -> WsMessage {
    WsMessage { msg_type: WsMessageType::New, text: Some(text), number: None }
}

impl WsMessage {
    pub fn users_watching(n: u64) -> (r: WsMessage)
        ensures
            r == watching_update(n),
    {
        WsMessage { msg_type: WsMessageType::UsersWatching, text: None, number: Some(n) }
    }

    pub fn users_bruteforcing(n: u64) -> (r: WsMessage)
        ensures
            r == bruteforcing_update(n),
    {
        WsMessage { msg_type: WsMessageType::UsersBruteforcing, text: None, number: Some(n) }
    }

    pub fn new_item(text: String) -> (r: WsMessage)
        ensures
            r == discovery(text),
    {
        WsMessage { msg_type: WsMessageType::New, text: Some(text), number: None }
    }
}

} // verus!
