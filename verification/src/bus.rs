//! Messages on their way to the agent.

use vstd::prelude::*;
use vstd::string::*;

verus! {

/// A message that came in through a channel.
#[derive(Debug)]
pub struct InboundMessage {
    /// The channel.
    pub channel: String,
    /// Who sent it.
    pub sender_id: String,
    /// Where in the channel it was sent.
    pub chat_id: String,
    /// The text.
    pub content: String,
}

/// What a message says.
#[verifier::ext_equal]
pub struct InboundModel {
    pub channel: Seq<char>,
    pub sender_id: Seq<char>,
    pub chat_id: Seq<char>,
    pub content: Seq<char>,
}

impl View for InboundMessage {
    type V = InboundModel;

    open spec fn view(&self) -> InboundModel {
        InboundModel {
            channel: self.channel@,
            sender_id: self.sender_id@,
            chat_id: self.chat_id@,
            content: self.content@,
        }
    }
}

impl InboundMessage {
    /// A message from `sender_id`.
    pub fn new(channel: &str, sender_id: &str, chat_id: &str, content: &str) -> (r: InboundMessage)
        ensures
            r@ == (InboundModel {
                channel: channel@,
                sender_id: sender_id@,
                chat_id: chat_id@,
                content: content@,
            }),
    {
        InboundMessage {
            channel: channel.to_string(),
            sender_id: sender_id.to_string(),
            chat_id: chat_id.to_string(),
            content: content.to_string(),
        }
    }
}

} // verus!
