//! The messages of a conversation.

use vstd::prelude::*;
use vstd::string::*;

verus! {

/// Who speaks.
#[derive(Debug, Clone, Copy, PartialEq, Eq, Structural)]
pub enum Role {
    System,
    User,
    Assistant,
    Tool,
}

/// A message.
#[derive(Debug)]
pub struct Message {
    pub role: Role,
    pub content: String,
}

/// What a message says.
#[verifier::ext_equal]
pub struct MessageModel {
    pub role: Role,
    pub content: Seq<char>,
}

impl View for Message {
    type V = MessageModel;

    open spec fn view(&self) -> MessageModel {
        MessageModel { role: self.role, content: self.content@ }
    }
}

/// What the messages of a list say.
pub open spec fn message_models(messages: Seq<Message>) -> Seq<MessageModel> {
    messages.map_values(|m: Message| m@)
}

impl Message {
    /// A message in the given role.
    pub fn new(role: Role, content: &str) -> (r: Message)
        ensures
            r@ == (MessageModel { role, content: content@ }),
    {
        Message { role, content: content.to_string() }
    }
}

} // verus!
