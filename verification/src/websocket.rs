//! `/echo`: a websocket that sends every message back.

use vstd::prelude::*;

verus! {

/// The largest message, in bytes, that continuation frames are gathered
/// into: one mebibyte.
pub const MAX_CONTINUATION_SIZE: usize = 1048576;

/// A message that the session receives, continuation frames already
/// gathered, or a failure of the stream.
pub enum WsMessage {
    Text(String),
    Binary(Vec<u8>),
    Ping(Vec<u8>),
    Pong(Vec<u8>),
    Close,
    Failed,
}

/// A message that the session sends.
pub enum WsReply {
    Text(String),
    Binary(Vec<u8>),
    Pong(Vec<u8>),
}

/// The answer to one received message: text and binary messages are sent
/// back as they came, a ping is answered by a pong with its payload, and
/// anything else gets no answer.
pub fn echo_reply(msg: WsMessage) -> (r: Option<WsReply>)
    ensures
        match msg {
            WsMessage::Text(t) => r matches Some(WsReply::Text(u)) && u@ == t@,
            WsMessage::Binary(b) => r matches Some(WsReply::Binary(c)) && c@ == b@,
            WsMessage::Ping(p) => r matches Some(WsReply::Pong(q)) && q@ == p@,
            _ => r is None,
        },
{
    match msg {
        WsMessage::Text(t) => Some(WsReply::Text(t)),
        WsMessage::Binary(b) => Some(WsReply::Binary(b)),
        WsMessage::Ping(p) => Some(WsReply::Pong(p)),
        _ => None,
    }
}

} // verus!
