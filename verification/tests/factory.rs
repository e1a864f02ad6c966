#![allow(deprecated)]

use ws::communication::{Command, Sender};
use ws::connection::factory::{Factory, Settings};
use ws::connection::handler::Handler;
use ws::message::Message;
use ws::result::{Error, Kind, Result};

struct S;

impl mio::deprecated::Handler for S {
    type Message = Command;
    type Timeout = ();
}

#[derive(Debug, Eq, PartialEq)]
struct M;

impl Handler for M {
    fn on_message(&mut self, _: Message) -> Result<()> {
        Ok(println!("dude"))
    }
}

#[test]
fn test_impl_factory() {
    struct X;

    impl Factory for X {
        type Handler = M;
        fn connection_made(&mut self, _: Sender) -> M {
            M
        }
    }

    let event_loop = mio::deprecated::EventLoop::<S>::new().unwrap();

    let mut x = X;
    let m = x.connection_made(Sender::new(mio::Token(0), event_loop.channel()));
    assert_eq!(m, M);
}

#[test]
fn test_closure_factory() {
    let event_loop = mio::deprecated::EventLoop::<S>::new().unwrap();

    let mut factory = |_| {
        |_| {Ok(())}
    };

    factory.connection_made(Sender::new(mio::Token(0), event_loop.channel()));
}

#[test]
fn a_closure_is_a_factory_like_a_named_one() {
    struct X;

    impl Factory for X {
        type Handler = M;
        fn connection_made(&mut self, _: Sender) -> M {
            M
        }
    }

    let event_loop = mio::deprecated::EventLoop::<S>::new().unwrap();
    let mut named = X;
    let mut closure = |_: Sender| M;
    let from_named = named.connection_made(Sender::new(mio::Token(3), event_loop.channel()));
    let from_closure = closure.connection_made(Sender::new(mio::Token(3), event_loop.channel()));
    assert_eq!(from_named, from_closure);

    let settings = closure.settings();
    let defaults = Settings::default();
    assert_eq!(settings.max_connections, defaults.max_connections);
    assert_eq!(settings.panic_on_new_connection, defaults.panic_on_new_connection);
    assert_eq!(settings.panic_on_shutdown, defaults.panic_on_shutdown);
    assert_eq!(settings.protocols, defaults.protocols);
    assert_eq!(settings.extensions, defaults.extensions);
    assert_eq!(settings.listen_secure, defaults.listen_secure);
    closure.on_shutdown();
    named.on_shutdown();
}

#[test]
fn a_closure_hands_its_conduit_to_the_handler() {
    struct Holder(Sender);

    impl Handler for Holder {
        fn on_message(&mut self, _: Message) -> Result<()> {
            Ok(())
        }
    }

    let event_loop = mio::deprecated::EventLoop::<S>::new().unwrap();
    let mut factory = |out: Sender| Holder(out);
    let handler = factory.connection_made(Sender::new(mio::Token(7), event_loop.channel()));
    assert_eq!(handler.0.token(), mio::Token(7));
}

#[test]
fn the_default_context_is_made_without_a_failure() {
    let mut factory = |_: Sender| M;
    assert!(factory.ssl_context().is_ok());
}

/// A transport that keeps what is written and has nothing to read.
struct Recorder {
    written: Vec<u8>,
}

impl std::io::Read for Recorder {
    fn read(&mut self, _: &mut [u8]) -> std::io::Result<usize> {
        Err(std::io::ErrorKind::WouldBlock.into())
    }
}

impl std::io::Write for Recorder {
    fn write(&mut self, buf: &[u8]) -> std::io::Result<usize> {
        self.written.extend_from_slice(buf);
        Ok(buf.len())
    }

    fn flush(&mut self) -> std::io::Result<()> {
        Ok(())
    }
}

#[test]
fn the_default_context_offers_tls_1_0_alone() {
    let mut factory = |_: Sender| M;
    let context = match factory.ssl_context() {
        Ok(context) => context,
        Err(_) => panic!("no context"),
    };
    let mut session = openssl::ssl::Ssl::new(&context).unwrap();
    session.set_security_level(0);
    let mut tls = openssl::ssl::SslStream::new(session, Recorder { written: Vec::new() }).unwrap();
    assert!(tls.connect().is_err());
    // The hello is a handshake record, and the highest version that it
    // names is 3.1, which is TLS 1.0.
    let hello = &tls.get_ref().written;
    assert_eq!(hello[0], 0x16);
    assert_eq!(&hello[9..11], &[3, 1]);
}

#[test]
fn a_closure_is_a_handler() {
    let mut handler = |msg: Message| match msg {
        Message::Text(_) => Ok(()),
        Message::Binary(_) => Err(Error::new(Kind::Unsupported, "text only")),
    };
    assert!(handler.on_message(Message::Text("dude".to_string())).is_ok());
    match handler.on_message(Message::Binary(vec![1, 2])) {
        Err(error) => {
            assert!(matches!(error.kind, Kind::Unsupported));
            assert_eq!(error.details, "text only");
        },
        Ok(()) => panic!("bytes went through"),
    }
}
