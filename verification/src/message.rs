//! A channel message, reduced to what a purge reads of it.

use vstd::prelude::*;

verus! {

/// One message of a channel's history.
#[derive(Debug)]
pub struct Message {
    /// The message's identifier.
    pub id: u64,
    /// When the message was sent, in seconds since 1970.
    pub timestamp: i64,
    /// The message's text.
    pub content: String,
}

/// The mathematical value of a [`Message`].
pub ghost struct MessageView {
    pub id: u64,
    pub timestamp: int,
    pub content: Seq<char>,
}

impl View for Message {
    type V = MessageView;

    open spec fn view(&self) -> MessageView {
        MessageView { id: self.id, timestamp: self.timestamp as int, content: self.content@ }
    }
}

impl DeepView for Message {
    type V = MessageView;

    open spec fn deep_view(&self) -> MessageView {
        self@
    }
}

impl Message {
    /// A message with the given identifier, send time and text.
    pub fn new(id: u64, timestamp: i64, content: String) -> (message: Self)
        ensures
            message@ == (MessageView { id, timestamp: timestamp as int, content: content@ }),
    {
        Message { id, timestamp, content }
    }
}

} // verus!
