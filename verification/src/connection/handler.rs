//! What a connection's protocol logic is to the transport.

use crate::message::Message;
use crate::result::Result;
use vstd::prelude::*;

verus! {

/// The consumer of a connection's messages. The transport only hands it
/// over: what a handler does is the business of the layers above.
pub trait Handler {
    /// Whether this handler can be given `msg`. Unless a handler says
    /// otherwise, any message will do.
    open spec fn takes(&self, msg: Message) -> bool {
        true
    }

    /// Called for each message of the peer.
    fn on_message(&mut self, msg: Message) -> (done: Result<()>)
        requires
            old(self).takes(msg),
    ;
}

/// A function on messages is a handler: a message is handled by calling it.
impl<F> Handler for F where F: Fn(Message) -> Result<()> {
    open spec fn takes(&self, msg: Message) -> bool {
        call_requires(*self, (msg,))
    }

    fn on_message(&mut self, msg: Message) -> (done: Result<()>)
        ensures
            call_ensures(*old(self), (msg,), done),
            *final(self) == *old(self),
    {
        (*self)(msg)
    }
}

/// A function is a handler for exactly the messages that it can be called
/// with.
pub proof fn function_is_handler<F>(function: F, msg: Message) where F: Fn(Message) -> Result<()>
    ensures
        function.takes(msg) == call_requires(function, (msg,)),
{
}

} // verus!
