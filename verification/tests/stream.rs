use std::io::{ErrorKind, Read, Write};
use mio::net::TcpStream;
use net2::TcpBuilder;
use openssl::ssl::{Ssl, SslContext, SslMethod, SslStream};
use ws::communication::Sender;
use ws::connection::factory::Factory;
use ws::connection::handler::Handler;
use ws::io::stream::{handshake_error, to_ssl_non_block, Stream};
use ws::message::Message;
use ws::result::{Error, Kind, Result};

struct Quiet;

impl Handler for Quiet {
    fn on_message(&mut self, _: Message) -> Result<()> {
        Ok(())
    }
}

/// A factory whose context speaks every version of TLS.
struct Modern;

impl Factory for Modern {
    type Handler = Quiet;

    fn connection_made(&mut self, _: Sender) -> Quiet {
        Quiet
    }

    fn ssl_context(&mut self) -> Result<SslContext> {
        Ok(SslContext::builder(SslMethod::tls()).unwrap().build())
    }
}

/// A factory that has no context to give.
struct Broken;

impl Factory for Broken {
    type Handler = Quiet;

    fn connection_made(&mut self, _: Sender) -> Quiet {
        Quiet
    }

    fn ssl_context(&mut self) -> Result<SslContext> {
        Err(Error::new(Kind::Unsupported, "no context"))
    }
}

/// A socket with an address of its own and no peer: every transfer fails
/// at once, and each end of the transport fails it in its own way.
fn socket() -> TcpStream {
    let builder = TcpBuilder::new_v4().unwrap();
    builder.bind("127.0.0.1:0").unwrap();
    TcpStream::from_stream(builder.to_tcp_stream().unwrap()).unwrap()
}

fn session_over(sock: TcpStream) -> SslStream<TcpStream> {
    let context = SslContext::builder(SslMethod::tls()).unwrap().build();
    let mut session = Ssl::new(&context).unwrap();
    session.set_connect_state();
    SslStream::new(session, sock).unwrap()
}

#[test]
fn upgrade_leaves_a_plain_stream_alone() {
    let sock = socket();
    let here = sock.local_addr().unwrap();
    let mut stream = Stream::Tcp(sock);
    let mut factory = Broken;
    for _ in 0..3 {
        assert!(matches!(stream.upgrade(&mut factory, true), Ok(Some(()))));
        assert!(matches!(stream.upgrade(&mut factory, false), Ok(Some(()))));
        assert!(matches!(stream, Stream::Tcp(_)));
    }
    assert_eq!(stream.evented().local_addr().unwrap(), here);
}

#[test]
fn upgrade_leaves_an_established_stream_alone() {
    let sock = socket();
    let here = sock.local_addr().unwrap();
    let mut stream = Stream::TlsEstablished(session_over(sock));
    let mut factory = Broken;
    for _ in 0..3 {
        assert!(matches!(stream.upgrade(&mut factory, true), Ok(Some(()))));
        assert!(matches!(stream.upgrade(&mut factory, false), Ok(Some(()))));
        assert!(matches!(stream, Stream::TlsEstablished(_)));
    }
    assert_eq!(stream.evented().local_addr().unwrap(), here);
}

#[test]
fn upgrade_refuses_to_accept_tls() {
    let sock = socket();
    let here = sock.local_addr().unwrap();
    let mut stream = Stream::TlsConnecting(sock);
    let mut factory = Modern;
    for _ in 0..2 {
        match stream.upgrade(&mut factory, false) {
            Err(error) => {
                assert!(matches!(error.kind, Kind::Unsupported));
                assert_eq!(error.details, "TLS acceptance is not implemented");
            },
            Ok(_) => panic!("acceptance went through"),
        }
        assert!(matches!(stream, Stream::TlsConnecting(_)));
    }
    assert_eq!(stream.evented().local_addr().unwrap(), here);
}

#[test]
fn upgrade_hands_on_the_failure_of_the_factory() {
    let mut stream = Stream::TlsConnecting(socket());
    let mut factory = Broken;
    match stream.upgrade(&mut factory, true) {
        Err(error) => {
            assert!(matches!(error.kind, Kind::Unsupported));
            assert_eq!(error.details, "no context");
        },
        Ok(_) => panic!("a context came from nowhere"),
    }
    assert!(matches!(stream, Stream::TlsConnecting(_)));
}

#[test]
fn upgrade_hands_on_the_failure_of_the_transport() {
    let sock = socket();
    let here = sock.local_addr().unwrap();
    let mut stream = Stream::TlsConnecting(sock);
    let mut factory = Modern;
    // Without a peer the hello cannot be sent: the handshake fails on the
    // socket, and not because it has to wait.
    match stream.upgrade(&mut factory, true) {
        Err(Error { kind: Kind::Io(err), details }) => {
            assert_eq!(err.kind(), ErrorKind::BrokenPipe);
            assert_eq!(details, "");
        },
        _ => panic!("a handshake without a peer"),
    }
    assert!(matches!(stream, Stream::TlsConnecting(_)));
    assert_eq!(stream.evented().local_addr().unwrap(), here);
}

#[test]
fn settle_puts_the_session_in_place_of_the_socket() {
    let sock = socket();
    let twin = sock.try_clone().unwrap();
    let here = sock.local_addr().unwrap();
    let mut stream = Stream::TlsConnecting(sock);
    assert!(matches!(stream.settle(Ok(session_over(twin))), Ok(Some(()))));
    assert!(matches!(stream, Stream::TlsEstablished(_)));
    assert_eq!(stream.evented().local_addr().unwrap(), here);
}

#[test]
fn settle_waits_on_would_block_and_fails_on_the_rest() {
    let mut stream = Stream::TlsConnecting(socket());
    for _ in 0..2 {
        let blocked = Error::new(Kind::Io(ErrorKind::WouldBlock.into()), "");
        assert!(matches!(stream.settle(Err(blocked)), Ok(None)));
        assert!(matches!(stream, Stream::TlsConnecting(_)));
    }
    let reset = Error::new(Kind::Io(ErrorKind::ConnectionReset.into()), "gone");
    match stream.settle(Err(reset)) {
        Err(Error { kind: Kind::Io(err), details }) => {
            assert_eq!(err.kind(), ErrorKind::ConnectionReset);
            assert_eq!(details, "gone");
        },
        _ => panic!("a reset connection is a failure"),
    }
    assert!(matches!(stream, Stream::TlsConnecting(_)));
}

#[test]
fn to_ssl_non_block_absorbs_only_would_block() {
    let blocked = Error::new(Kind::Io(ErrorKind::WouldBlock.into()), "later");
    assert!(matches!(to_ssl_non_block(blocked), Ok(None)));
    let refused = Error::new(Kind::Io(ErrorKind::ConnectionRefused.into()), "no");
    match to_ssl_non_block(refused) {
        Err(Error { kind: Kind::Io(err), details }) => {
            assert_eq!(err.kind(), ErrorKind::ConnectionRefused);
            assert_eq!(details, "no");
        },
        _ => panic!("a refused connection is a failure"),
    }
    let missing = Error::new(Kind::Unsupported, "never");
    match to_ssl_non_block(missing) {
        Err(Error { kind: Kind::Unsupported, details }) => assert_eq!(details, "never"),
        _ => panic!("an unsupported operation is a failure"),
    }
    let stack = openssl::error::ErrorStack::get();
    assert!(matches!(
        to_ssl_non_block(Error::new(Kind::Ssl(stack), "")),
        Err(Error { kind: Kind::Ssl(_), .. })
    ));
}

#[test]
fn handshake_error_keeps_a_tls_failure_as_it_is() {
    let failure = openssl::ssl::Error::from(openssl::error::ErrorStack::get());
    let error = handshake_error(failure);
    assert!(matches!(error.kind, Kind::Handshake(_)));
    assert_eq!(error.details, "");
}

#[test]
fn bytes_go_to_the_socket_before_tls_is_established() {
    // A socket without a peer refuses a read as not connected and a write
    // as a broken pipe, and has nothing to flush.
    let mut plain = Stream::Tcp(socket());
    let mut negotiating = Stream::TlsConnecting(socket());
    let mut buf = [7u8; 4];
    assert_eq!(plain.read(&mut buf).unwrap_err().kind(), ErrorKind::NotConnected);
    assert_eq!(negotiating.read(&mut buf).unwrap_err().kind(), ErrorKind::NotConnected);
    assert_eq!(buf, [7u8; 4]);
    assert_eq!(plain.write(b"plain").unwrap_err().kind(), ErrorKind::BrokenPipe);
    assert_eq!(negotiating.write(b"probe").unwrap_err().kind(), ErrorKind::BrokenPipe);
    assert!(plain.flush().is_ok());
    assert!(negotiating.flush().is_ok());
    assert!(matches!(plain, Stream::Tcp(_)));
    assert!(matches!(negotiating, Stream::TlsConnecting(_)));
}

#[test]
fn bytes_go_through_the_session_once_tls_is_established() {
    // The session opens with a hello of its own, so over a socket without a
    // peer even a read ends in the write that the socket refuses.
    let sock = socket();
    let here = sock.local_addr().unwrap();
    let mut stream = Stream::TlsEstablished(session_over(sock));
    let mut buf = [7u8; 4];
    assert_eq!(stream.read(&mut buf).unwrap_err().kind(), ErrorKind::BrokenPipe);
    assert_eq!(stream.write(b"secret").unwrap_err().kind(), ErrorKind::BrokenPipe);
    assert!(stream.flush().is_ok());
    assert!(matches!(stream, Stream::TlsEstablished(_)));
    assert_eq!(stream.evented().local_addr().unwrap(), here);
}

#[test]
fn an_empty_transfer_moves_nothing() {
    let mut stream = Stream::TlsEstablished(session_over(socket()));
    let mut none = [0u8; 0];
    assert_eq!(stream.read(&mut none).unwrap(), 0);
    assert_eq!(stream.write(&none).unwrap(), 0);
    assert!(matches!(stream, Stream::TlsEstablished(_)));
}

#[test]
fn proceed_hands_on_the_answer_of_the_factory() {
    let sock = socket();
    let twin = sock.try_clone().unwrap();
    let here = sock.local_addr().unwrap();
    let mut stream = Stream::TlsConnecting(sock);
    let refusal = Error::new(Kind::Io(ErrorKind::WouldBlock.into()), "not yet");
    // A would-block of the factory is a failure like any other: only the
    // handshake's is taken as a request to wait.
    match stream.proceed(twin, Err(refusal)) {
        Err(Error { kind: Kind::Io(err), details }) => {
            assert_eq!(err.kind(), ErrorKind::WouldBlock);
            assert_eq!(details, "not yet");
        },
        _ => panic!("the failure of the factory was lost"),
    }
    assert!(matches!(stream, Stream::TlsConnecting(_)));
    assert_eq!(stream.evented().local_addr().unwrap(), here);
}

#[test]
fn attempt_fails_where_the_socket_has_no_peer() {
    let sock = socket();
    let twin = sock.try_clone().unwrap();
    let mut stream = Stream::TlsConnecting(sock);
    let context = SslContext::builder(SslMethod::tls()).unwrap().build();
    match stream.attempt(&context, twin) {
        Err(Error { kind: Kind::Io(err), details }) => {
            assert_eq!(err.kind(), ErrorKind::BrokenPipe);
            assert_eq!(details, "");
        },
        _ => panic!("a handshake without a peer"),
    }
    assert!(matches!(stream, Stream::TlsConnecting(_)));
}
