//! The message-only response envelope.

use vstd::prelude::*;

verus! {

/// A response that carries informational messages and nothing else.
pub struct MessageResponse {
    pub messages: Vec<String>,
}

impl MessageResponse {
    /// An envelope holding the one given message.
    pub fn from_message(message: String) -> (r: MessageResponse)
        ensures
            r.messages@.len() == 1,
            r.messages@[0] == message,
    {
        let mut messages: Vec<String> = Vec::new();
        messages.push(message);
        MessageResponse { messages }
    }
}

} // verus!
