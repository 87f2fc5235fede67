//! The typed request/response messages of the websocket session, as decoded
//! from and encoded to the wire envelope by the transport layer.

use vstd::prelude::*;

use crate::ids::Token;
use crate::message::ChatMessage;

verus! {

/// A client-to-server request.
pub enum AwspRequestMessage {
    Authenticate { token: Token },
}

/// A server-to-client response.
pub enum AwspResponseMessage {
    Error { message: String },
    Message(ChatMessage),
    Welcome,
}

} // verus!
