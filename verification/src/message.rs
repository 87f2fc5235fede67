//! Chat messages: immutable once created, persisted by the external message
//! store before any fan-out.

use vstd::prelude::*;

use crate::ids::{ChannelId, UserId};

verus! {

/// A chat message a user sends to a channel.
#[derive(Clone, Debug)]
pub struct ChatMessage {
    pub id: u128,
    pub author: UserId,
    pub channel: ChannelId,
    pub content: String,
    pub created_at: i64,
}

/// The mathematical value of a [`ChatMessage`].
pub struct ChatMessageView {
    pub id: u128,
    pub author: UserId,
    pub channel: ChannelId,
    pub content: Seq<char>,
    pub created_at: i64,
}

impl View for ChatMessage {
    type V = ChatMessageView;

    open spec fn view(&self) -> ChatMessageView {
        ChatMessageView {
            id: self.id,
            author: self.author,
            channel: self.channel,
            content: self.content@,
            created_at: self.created_at,
        }
    }
}

impl ChatMessage {
    /// A copy carrying the same value, for handing one message to several
    /// subscribers.
    pub fn duplicate(&self) -> (r: ChatMessage)
        ensures
            r@ == self@,
    {
        ChatMessage {
            id: self.id,
            author: self.author,
            channel: self.channel,
            content: self.content.clone(),
            created_at: self.created_at,
        }
    }
}

} // verus!
