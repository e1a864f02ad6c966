//! The conduit from a connection back into the reactor that owns it.

use mio::deprecated::Sender as Channel;
use mio::Token;
use vstd::prelude::*;

verus! {

/// mio's token: the number under which the reactor knows a connection.
#[verifier::external_type_specification]
#[verifier::external_body]
pub struct ExToken(mio::Token);

/// The sending end of the reactor's queue of messages.
#[verifier::external_type_specification]
#[verifier::external_body]
#[verifier::reject_recursive_types(Queued)]
pub struct ExChannel<Queued>(Channel<Queued>);

/// What a connection can ask of the reactor.
pub enum Signal {
    /// Close every connection and stop.
    Shutdown,
}

/// A request to the reactor, with the connection that makes it.
pub struct Command {
    pub token: Token,
    pub signal: Signal,
}

/// The output conduit of one connection. The reactor makes one for each
/// connection; the factory passes it to the handler it creates.
pub struct Sender {
    token: Token,
    channel: Channel<Command>,
}

impl Sender {
    /// The connection that this conduit belongs to.
    pub closed spec fn connection(self) -> Token {
        self.token
    }

    /// The queue that this conduit feeds.
    pub closed spec fn queue(self) -> Channel<Command> {
        self.channel
    }

    /// The conduit of the connection `token` into the queue `channel`.
    pub fn new(token: Token, channel: Channel<Command>) -> (sender: Sender)
        ensures
            sender.connection() == token,
            sender.queue() == channel,
    {
        Sender { token, channel }
    }

    /// The token of the connection that this conduit belongs to.
    pub fn token(&self) -> (token: Token)
        ensures
            token == self.connection(),
    {
        self.token
    }
}

} // verus!
