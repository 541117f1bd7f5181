use vstd::prelude::*;
use crate::message::Message;

verus! {

/// A message as the query gateway shows it.
pub struct QMessage {
    pub text: String,
}

impl QMessage {
    /// A gateway message that holds `text`.
    pub fn new(text: String) -> (r: QMessage)
        ensures
            r.text@ == text@,
    {
        QMessage { text }
    }
}

/// The gateway's queries.
pub struct QueryRoot;

impl QueryRoot {
    /// Past messages: none, since nothing is kept.
    pub fn messages(&self) -> (r: Vec<QMessage>)
        ensures
            r@.len() == 0,
    {
        Vec::new()
    }
}

/// The gateway's mutations.
pub struct MutationRoot;

impl MutationRoot {
    /// The publish request that the mutation `message(text)` makes; the
    /// mutation answers with `text` itself.
    pub fn message(&self, text: &String) -> (r: Message)
        ensures
            r.text@ == text@,
    {
        Message::new(text.clone())
    }
}

/// The gateway's subscriptions.
pub struct SubscriptionRoot;

impl SubscriptionRoot {
    /// How one message of the hub's stream reaches a gateway subscriber.
    pub fn messages(&self, msg: Message) -> (r: QMessage)
        ensures
            r.text@ == msg.text@,
    {
        QMessage::new(msg.text)
    }
}

} // verus!
