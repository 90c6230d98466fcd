//! Which messages a service can handle.
//!
//! This is useful for composing multiple services and routing messages between them.
use vstd::prelude::*;

verus! {

/// Indicates whether a service can handle a specific type of messages.
///
/// What a service answers is up to its author, and `answers` says how it may. By default nothing is
/// said of the answers.
pub trait CanHandle<Message>: Sized {
    /// Asked about the message, the service may answer `yes`.
    open spec fn answers(self, message: Message, yes: bool) -> bool {
        true
    }

    /// Tells whether the service can handle the message.
    fn can_handle(&self, message: &Message) -> (yes: bool)
        ensures
            self.answers(*message, yes),
    ;
}

} // verus!
