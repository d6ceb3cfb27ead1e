use vstd::prelude::*;

verus! {

/// A message delivered for a subscription.
#[derive(Clone, Debug)]
pub struct Message {
    /// Subject the message was published to.
    pub subject: String,
    /// Optional subject to reply to.
    pub reply: Option<String>,
    /// Payload.
    pub data: Vec<u8>,
}

impl Message {
    /// Builds a message from its parts.
    pub fn new(subject: String, reply: Option<String>, data: Vec<u8>) -> (m: Message)
        ensures
            m.subject@ == subject@,
            m.reply == reply,
            m.data@ == data@,
    {
        Message { subject, reply, data }
    }
}

} // verus!
