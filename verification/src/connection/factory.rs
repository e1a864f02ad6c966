//! The factory of connection handlers and the settings it carries.

use crate::communication::Sender;
use crate::connection::handler::Handler;
use crate::io::tls::{
    build, builder, held_to_tls_v1, set_max_proto_version, set_min_proto_version, tls_v1,
    tls_v1_refused, version, Protocol,
};
use crate::result::{Error, Kind, Result};
use openssl::ssl::SslContext;
use vstd::prelude::*;

verus! {

/// Connection-wide policy. A value is fixed once a connection has it.
#[derive(Debug, Clone, Copy)]
pub struct Settings {
    /// Upper bound on the connections open at one time.
    pub max_connections: usize,
    /// Whether a failure while accepting a connection is fatal.
    pub panic_on_new_connection: bool,
    /// Whether a failure of the shutdown hook is fatal.
    pub panic_on_shutdown: bool,
    /// The sub-protocols to advertise.
    pub protocols: Option<&'static str>,
    /// The extensions to advertise.
    pub extensions: Option<&'static str>,
    /// Whether the listener expects connections wrapped in TLS.
    pub listen_secure: bool,
}

impl Settings {
    /// The settings of an endpoint that configures nothing.
    pub open spec fn defaults() -> Settings {
        Settings {
            max_connections: 10_000,
            panic_on_new_connection: true,
            panic_on_shutdown: false,
            protocols: None,
            extensions: None,
            listen_secure: false,
        }
    }
}

impl Default for Settings {
    fn default() -> (settings: Settings)
        ensures
            settings == Settings::defaults(),
    {
        Settings {
            max_connections: 10_000,
            panic_on_new_connection: true,
            panic_on_shutdown: false,
            protocols: None,
            extensions: None,
            listen_secure: false,
        }
    }
}

/// Whether `answer` is what a factory that supplies no TLS configuration of
/// its own returns for one: a context for TLS 1.0 alone, or the errors with
/// which the TLS library refused to make one.
pub open spec fn provided(answer: Result<SslContext>) -> bool {
    match answer {
        Ok(made) => tls_v1(made),
        Err(error) => error.details == "" && (error.kind matches Kind::Ssl(stack)
            && tls_v1_refused(stack)),
    }
}

/// The maker of one handler per connection, which also carries the
/// settings of the endpoint and the TLS configuration of its connections.
pub trait Factory: Sized {
    type Handler: Handler;

    /// Whether this factory can be handed `out`. Unless a factory says
    /// otherwise, any conduit will do.
    open spec fn accepts(&self, out: Sender) -> bool {
        true
    }

    /// Called once for each connection, before any of its data flows: builds
    /// the handler that will use `out`.
    fn connection_made(&mut self, out: Sender) -> (handler: Self::Handler)
        requires
            old(self).accepts(out),
    ;

    /// The settings for the next connections.
    fn settings(&mut self) -> (settings: Settings)
        default_ensures
            settings == Settings::defaults(),
            *final(self) == *old(self),
    {
        Settings::default()
    }

    /// Called when the endpoint closes all its connections.
    fn on_shutdown(&mut self)
        default_ensures
            *final(self) == *old(self),
    {
    }

    /// Whether a `ssl_context` of this factory's own can leave the factory
    /// as `after` and return `answer`. A factory that supplies its own TLS
    /// configuration says here what that can be; unless it does, nothing is
    /// ruled out.
    open spec fn supplies(&self, after: Self, answer: Result<SslContext>) -> bool {
        true
    }

    /// The TLS configuration for a connection that is about to negotiate.
    /// Unless a factory says otherwise it is one for TLS 1.0 alone, made of
    /// a fresh builder, and the only failure is that the TLS library refuses
    /// a step of that, with the errors it gave.
    fn ssl_context(&mut self) -> (context: Result<SslContext>)
        ensures
            old(self).supplies(*final(self), context) || (*final(self) == *old(self) && provided(
                context,
            )),
        default_ensures
            provided(context),
            *final(self) == *old(self),
    {
        let mut config = match builder() {
            Ok(config) => config,
            Err(stack) => {
                return Err(Error::new(Kind::Ssl(stack), ""));
            },
        };
        let ghost start = config;
        if let Err(stack) = set_min_proto_version(&mut config, version(Protocol::Tls1)) {
            return Err(Error::new(Kind::Ssl(stack), ""));
        }
        let ghost lower = config;
        if let Err(stack) = set_max_proto_version(&mut config, version(Protocol::Tls1)) {
            return Err(Error::new(Kind::Ssl(stack), ""));
        }
        assert(held_to_tls_v1(start, lower, config));
        Ok(build(config))
    }
}

/// A function from a conduit to a handler is a factory: making a connection
/// calls it, and everything else is as the trait provides.
impl<F, H> Factory for F where H: Handler, F: FnMut(Sender) -> H {
    type Handler = H;

    open spec fn accepts(&self, out: Sender) -> bool {
        call_requires(*self, (out,))
    }

    open spec fn supplies(&self, after: Self, answer: Result<SslContext>) -> bool {
        after == *self && provided(answer)
    }

    fn connection_made(&mut self, out: Sender) -> (handler: H)
        ensures
            call_ensures(*old(self), (out,), handler),
    {
        (*self)(out)
    }
}

/// Whether a call of `ssl_context` can leave `factory` as `left` and return
/// `answer`: as the factory says of its own, or as the trait provides.
pub open spec fn answered<F: Factory>(factory: F, left: F, answer: Result<SslContext>) -> bool {
    factory.supplies(left, answer) || (left == factory && provided(answer))
}

/// A function is a factory for exactly the conduits that it can be called
/// with.
pub proof fn function_is_factory<F, H>(function: F, out: Sender) where
    H: Handler,
    F: FnMut(Sender) -> H,

    ensures
        function.accepts(out) == call_requires(function, (out,)),
{
}

} // verus!
