use vstd::prelude::*;

verus! {

/// A published message: a short piece of text, copied to every subscriber.
pub struct Message {
    pub text: String,
}

impl Message {
    /// Builds a message that holds `text`.
    pub fn new(text: String) -> (r: Message)
        ensures
            r.text@ == text@,
    {
        Message { text }
    }

    /// A copy of this message for one more subscriber.
    pub fn duplicate(&self) -> (r: Message)
        ensures
            r.text@ == self.text@,
    {
        Message { text: self.text.clone() }
    }
}

} // verus!
