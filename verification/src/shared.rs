//! The plain chat protocol: the small message set of the lobby-only
//! client, one JSON message per line. The full game protocol grew out of
//! it; this set is still spoken before a match exists.

use vstd::prelude::*;

verus! {

/// What a plain chat client sends to the server.
#[derive(Debug, Clone)]
pub enum ClientMessage {
    AddPlayer(String),
    RemovePlayer,
    Chat(String),
    GetChatLog,
}

/// One line of chat history, as this protocol frames it.
#[derive(Debug, Clone)]
pub enum ChatLine {
    Text(String),
    GameEvent(String),
    Connection(String),
    Disconnection(String),
}

/// The answer to a plain login attempt.
#[derive(Debug, Clone, Copy, PartialEq, Eq, Structural)]
pub enum LoginStatus {
    Logged,
    InvalidPlayerName,
    AlreadyLogged,
    PlayerLimit,
}

/// What the server sends to a plain chat client.
#[derive(Debug, Clone)]
pub enum ServerMessage {
    LoginStatus(LoginStatus),
    Chat(ChatLine),
    ChatLog(Vec<ChatLine>),
    Logout,
}

/// Holds a line-delimited inbound stream while chat messages are decoded
/// off it. Decoding itself happens outside the library; this type only
/// carries the stream from construction to its reader.
pub struct MessageDecoder<S> {
    pub stream: S,
}

impl<S> MessageDecoder<S> {
    /// Wrap a stream for decoding.
    pub fn new(stream: S) -> (d: MessageDecoder<S>)
        ensures
            d.stream == stream,
    {
        MessageDecoder { stream }
    }
}

} // verus!
