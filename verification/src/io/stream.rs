//! One connection's socket, plain or on its way to TLS.

use crate::connection::factory::{answered, Factory};
use crate::io::tcp;
use crate::io::tcp::{shares_stream, socket_clone, try_clone};
use crate::io::tls;
use crate::io::tls::{
    connect, get_ref, into_io_error, io_cause, new_session, over, session_connect, session_context,
    tls_socket,
};
use crate::result::{would_block, Error, Kind, Result, NO_ACCEPTANCE};
use mio::net::TcpStream;
use openssl::ssl::{SslContext, SslStream};
use vstd::prelude::*;

verus! {

/// The transport of one connection. Exactly one variant holds the socket.
#[derive(Debug)]
pub enum Stream {
    /// Plain TCP, ready for use. It stays plain.
    Tcp(TcpStream),
    /// TLS is wanted and not yet negotiated. Bytes still go over the socket.
    TlsConnecting(TcpStream),
    /// TLS is negotiated. Every byte goes through the session.
    TlsEstablished(SslStream<TcpStream>),
}

/// Turns the failure of a handshake attempt into what the caller is told:
/// an attempt that only has to wait is no failure, anything else is.
pub fn to_ssl_non_block(err: Error) -> (outcome: Result<Option<SslStream<TcpStream>>>)
    ensures
        err.is_would_block() ==> outcome == Ok::<Option<SslStream<TcpStream>>, Error>(None),
        !err.is_would_block() ==> outcome == Err::<Option<SslStream<TcpStream>>, Error>(err),
{
    let Error { kind, details } = err;
    match kind {
        Kind::Io(ioerr) => {
            if would_block(&ioerr) {
                Ok(None)
            } else {
                Err(Error::new(Kind::Io(ioerr), details))
            }
        },
        other => Err(Error::new(other, details)),
    }
}

impl Stream {
    /// The socket that the reactor polls for this stream.
    pub open spec fn descriptor(self) -> TcpStream {
        match self {
            Stream::Tcp(sock) => sock,
            Stream::TlsConnecting(sock) => sock,
            Stream::TlsEstablished(tls) => tls_socket(tls),
        }
    }

    /// Whether TLS is wanted and not yet negotiated.
    pub open spec fn negotiating(self) -> bool {
        self is TlsConnecting
    }

    /// Whether every byte goes through a TLS session.
    pub open spec fn secured(self) -> bool {
        self is TlsEstablished
    }

    /// The socket to register with the reactor, whatever the variant.
    pub fn evented(&self) -> (sock: &TcpStream)
        ensures
            *sock == self.descriptor(),
    {
        match self {
            Stream::Tcp(stream) => stream,
            Stream::TlsConnecting(stream) => stream,
            Stream::TlsEstablished(tls) => get_ref(tls),
        }
    }
}

/// This layer's error for the failure of a TLS operation: the I/O error
/// that stopped it where there is one, else the TLS failure itself.
pub open spec fn handshake_failure(failure: openssl::ssl::Error) -> Error {
    match io_cause(failure) {
        Some(ioerr) => Error { kind: Kind::Io(ioerr), details: "" },
        None => Error { kind: Kind::Handshake(failure), details: "" },
    }
}

/// Turns the failure of a TLS operation into this layer's error.
pub fn handshake_error(failure: openssl::ssl::Error) -> (error: Error)
    ensures
        error == handshake_failure(failure),
{
    match into_io_error(failure) {
        Ok(ioerr) => Error::new(Kind::Io(ioerr), ""),
        Err(failure) => Error::new(Kind::Handshake(failure), ""),
    }
}

/// Whether `fresh` is a session of `context` over `sock`.
pub open spec fn begins(fresh: SslStream<TcpStream>, context: SslContext, sock: TcpStream) -> bool {
    tls_socket(fresh) == sock && session_context(fresh) == context
}

/// Whether `attempt` can be the end of one client handshake made with a
/// fresh session of `context` over `sock`. The session that it hands out is
/// the one that the handshake left, still over `sock`; an error is either
/// that the TLS library could not set the session up, or the one made of
/// the handshake's failure.
pub open spec fn handshaken(
    context: SslContext,
    sock: TcpStream,
    attempt: Result<SslStream<TcpStream>>,
) -> bool {
    match attempt {
        Ok(tls) => tls_socket(tls) == sock && exists|
            fresh: SslStream<TcpStream>,
            done: std::result::Result<(), openssl::ssl::Error>,
        |
            #![trigger session_connect(fresh, tls, done)]
            begins(fresh, context, sock) && done is Ok && session_connect(fresh, tls, done),
        Err(error) => {
            ||| error.kind is Ssl && error.details == ""
            ||| exists|
                fresh: SslStream<TcpStream>,
                left: SslStream<TcpStream>,
                failure: openssl::ssl::Error,
            |
                #![trigger session_connect(fresh, left, Err(failure))]
                begins(fresh, context, sock) && session_connect(fresh, left, Err(failure)) && error
                    == handshake_failure(failure)
        },
    }
}

impl Stream {
    /// What `upgrade` leaves behind and returns once a handshake attempt
    /// over a clone of the socket has ended in `attempt`.
    pub open spec fn settled(
        self,
        attempt: Result<SslStream<TcpStream>>,
        after: Stream,
        outcome: Result<Option<()>>,
    ) -> bool {
        match attempt {
            Ok(tls) => after == Stream::TlsEstablished(tls) && outcome == Ok::<Option<()>, Error>(
                Some(()),
            ),
            Err(error) => after == self && if error.is_would_block() {
                outcome == Ok::<Option<()>, Error>(None)
            } else {
                outcome == Err::<Option<()>, Error>(error)
            },
        }
    }

    /// Ends one handshake attempt: a negotiated session takes the place of
    /// the socket, an attempt that has to wait leaves the stream for the
    /// next one, and any other failure is the caller's.
    pub fn settle(&mut self, attempt: Result<SslStream<TcpStream>>) -> (outcome: Result<Option<()>>)
        requires
            old(self).negotiating(),
        ensures
            old(self).settled(attempt, *final(self), outcome),
    {
        let waited = match attempt {
            Ok(tls) => Ok(Some(tls)),
            Err(error) => to_ssl_non_block(error),
        };
        match waited {
            Ok(Some(tls)) => {
                *self = Stream::TlsEstablished(tls);
                Ok(Some(()))
            },
            Ok(None) => Ok(None),
            Err(error) => Err(error),
        }
    }

    /// Whether `attempt` can be the end of a handshake that this stream
    /// tried: one made with some context over a clone of its socket.
    pub open spec fn attempted(self, attempt: Result<SslStream<TcpStream>>) -> bool {
        exists|context: SslContext, sock: TcpStream|
            #![trigger handshaken(context, sock, attempt)]
            shares_stream(self.descriptor(), sock) && handshaken(context, sock, attempt)
    }

    /// What `upgrade` makes of a negotiating client once it has the clone
    /// `sock` of the socket and the factory has answered with `supplied`:
    /// the factory's failure is the caller's as it came, and with a context
    /// the call ends as the handshake attempt with it says.
    pub open spec fn proceeded(
        self,
        sock: TcpStream,
        supplied: Result<SslContext>,
        after: Stream,
        outcome: Result<Option<()>>,
    ) -> bool {
        match supplied {
            Err(error) => after == self && outcome == Err::<Option<()>, Error>(error),
            Ok(context) => exists|attempt: Result<SslStream<TcpStream>>|
                #![trigger self.settled(attempt, after, outcome)]
                handshaken(context, sock, attempt) && self.settled(attempt, after, outcome),
        }
    }

    /// What one call of `upgrade` makes of a negotiating client and of the
    /// factory, which it leaves as `left`. Either the socket could not be
    /// cloned: that failure is the caller's, and the factory was left alone.
    /// Or the factory was asked for a context, and the call went on with a
    /// clone of the socket and the factory's answer.
    pub open spec fn negotiated<F: Factory>(
        self,
        factory: F,
        left: F,
        after: Stream,
        outcome: Result<Option<()>>,
    ) -> bool {
        ||| exists|ioerr: std::io::Error|
            #![trigger socket_clone(self.descriptor(), Err(ioerr))]
            socket_clone(self.descriptor(), Err(ioerr)) && left == factory && after == self
                && outcome == Err::<Option<()>, Error>(Error { kind: Kind::Io(ioerr), details: "" })
        ||| exists|sock: TcpStream, supplied: Result<SslContext>|
            #![trigger self.proceeded(sock, supplied, after, outcome)]
            shares_stream(self.descriptor(), sock) && answered(factory, left, supplied)
                && self.proceeded(sock, supplied, after, outcome)
    }

    /// What one call of `upgrade` may make of a stream, and what it then
    /// returns. Only a negotiating client leaves anything open: it fails
    /// before the handshake, for want of a socket or of a context, or the
    /// call ends as the handshake attempt says.
    pub open spec fn advanced(self, is_client: bool, after: Stream, outcome: Result<Option<()>>) -> bool {
        if !self.negotiating() {
            after == self && outcome == Ok::<Option<()>, Error>(Some(()))
        } else if !is_client {
            after == self && outcome == Err::<Option<()>, Error>(
                Error { kind: Kind::Unsupported, details: NO_ACCEPTANCE },
            )
        } else {
            ||| after == self && outcome is Err
            ||| exists|attempt: Result<SslStream<TcpStream>>|
                #![trigger self.settled(attempt, after, outcome)]
                self.attempted(attempt) && self.settled(attempt, after, outcome)
        }
    }

    /// Advances TLS negotiation by one attempt.
    ///
    /// A stream that is not negotiating is left alone. A negotiating client
    /// clones its socket, asks `factory` for a TLS context and tries the
    /// handshake over the clone: `Some` says that the stream is now secured,
    /// `None` that the attempt has to wait for the socket and is to be made
    /// again. Accepting TLS as a server is not implemented: the stream stays
    /// as it is and the error says so.
    pub fn upgrade<F>(&mut self, factory: &mut F, is_client: bool) -> (outcome: Result<Option<()>>)
        where F: Factory
        ensures
            old(self).advanced(is_client, *final(self), outcome),
            old(self).negotiating() && is_client ==> old(self).negotiated(
                *old(factory),
                *final(factory),
                *final(self),
                outcome,
            ),
            !(old(self).negotiating() && is_client) ==> *final(factory) == *old(factory),
    {
        match self {
            Stream::TlsConnecting(stream) => {
                if !is_client {
                    return Err(Error::new(Kind::Unsupported, NO_ACCEPTANCE));
                }
                let sock = match try_clone(stream) {
                    Ok(sock) => sock,
                    Err(ioerr) => {
                        assert(socket_clone(old(self).descriptor(), Err(ioerr)));
                        return Err(Error::new(Kind::Io(ioerr), ""));
                    },
                };
                assert(shares_stream(*stream, sock));
                let supplied = factory.ssl_context();
                self.proceed(sock, supplied)
            },
            _ => Ok(Some(())),
        }
    }

    /// Goes on with the clone `sock` of the socket once the factory has
    /// answered with `supplied`: its failure is the caller's as it came and
    /// nothing is tried; with a context, one handshake attempt is made.
    pub fn proceed(&mut self, sock: TcpStream, supplied: Result<SslContext>) -> (outcome: Result<
        Option<()>,
    >)
        requires
            old(self).negotiating(),
        ensures
            old(self).proceeded(sock, supplied, *final(self), outcome),
    {
        match supplied {
            Ok(context) => self.attempt(&context, sock),
            Err(error) => Err(error),
        }
    }

    /// Makes one client handshake with a fresh session of `context` over
    /// `sock`, and ends the attempt: the negotiated session takes the place
    /// of the socket, an attempt that has to wait leaves the stream for the
    /// next one, and any other failure is the caller's.
    pub fn attempt(&mut self, context: &SslContext, sock: TcpStream) -> (outcome: Result<Option<()>>)
        requires
            old(self).negotiating(),
        ensures
            old(self).proceeded(sock, Ok(*context), *final(self), outcome),
    {
        let attempt = Stream::handshake(context, sock);
        self.settle(attempt)
    }

    /// One client handshake over `sock` with a fresh session of `context`:
    /// the negotiated session, or why there is none.
    fn handshake(context: &openssl::ssl::SslContext, sock: TcpStream) -> (attempt: Result<
        SslStream<TcpStream>,
    >)
        ensures
            handshaken(*context, sock, attempt),
    {
        let session = match new_session(context) {
            Ok(session) => session,
            Err(stack) => {
                return Err(Error::new(Kind::Ssl(stack), ""));
            },
        };
        let mut tls = match over(session, sock) {
            Ok(tls) => tls,
            Err(stack) => {
                return Err(Error::new(Kind::Ssl(stack), ""));
            },
        };
        let ghost fresh = tls;
        let done = connect(&mut tls);
        proof {
            assert(begins(fresh, *context, sock) && session_connect(fresh, tls, done));
        }
        match done {
            Ok(_) => Ok(tls),
            Err(failure) => Err(handshake_error(failure)),
        }
    }
}

impl Stream {
    /// What reading, writing and flushing leave of a stream: before TLS is
    /// established the stream is as it was; after, it is still secured, over
    /// the same socket.
    pub open spec fn carried(self, after: Stream) -> bool {
        if self.secured() {
            after.secured() && after.descriptor() == self.descriptor()
        } else {
            after == self
        }
    }

    /// Whether a read into a buffer that holds `before` can leave the stream
    /// as `after`, the buffer with `left` in it, and return `count`: before
    /// TLS is established it is a read on the socket, after it one on the
    /// session.
    pub open spec fn reads(
        self,
        after: Stream,
        before: Seq<u8>,
        left: Seq<u8>,
        count: std::io::Result<usize>,
    ) -> bool {
        match self {
            Stream::Tcp(sock) => after == self && tcp::socket_read(sock, before, left, count),
            Stream::TlsConnecting(sock) => after == self && tcp::socket_read(
                sock,
                before,
                left,
                count,
            ),
            Stream::TlsEstablished(session) => after matches Stream::TlsEstablished(kept)
                && tls::session_read(session, kept, before, left, count),
        }
    }

    /// Whether a write of `bytes` can leave the stream as `after` and return
    /// `count`: before TLS is established it is a write on the socket, after
    /// it one on the session.
    pub open spec fn writes(self, after: Stream, bytes: Seq<u8>, count: std::io::Result<usize>) -> bool {
        match self {
            Stream::Tcp(sock) => after == self && tcp::socket_write(sock, bytes, count),
            Stream::TlsConnecting(sock) => after == self && tcp::socket_write(sock, bytes, count),
            Stream::TlsEstablished(session) => after matches Stream::TlsEstablished(kept)
                && tls::session_write(session, kept, bytes, count),
        }
    }

    /// Whether a flush can leave the stream as `after` and return `done`:
    /// before TLS is established it is a flush of the socket, after it one
    /// of the session.
    pub open spec fn flushes(self, after: Stream, done: std::io::Result<()>) -> bool {
        match self {
            Stream::Tcp(sock) => after == self && tcp::socket_flush(sock, done),
            Stream::TlsConnecting(sock) => after == self && tcp::socket_flush(sock, done),
            Stream::TlsEstablished(session) => after matches Stream::TlsEstablished(kept)
                && tls::session_flush(session, kept, done),
        }
    }
}

impl std::io::Read for Stream {
    /// Hands the read to the socket, or to the session once there is one,
    /// and returns what came of it. Neither waits. A session answers a read
    /// into an empty `buf` at once, with no bytes.
    fn read(&mut self, buf: &mut [u8]) -> (count: std::io::Result<usize>)
        ensures
            old(self).reads(*final(self), old(buf)@, final(buf)@, count),
            old(self).carried(*final(self)),
            final(buf)@.len() == old(buf)@.len(),
            count matches Ok(n) ==> n <= old(buf)@.len(),
            old(self).secured() && old(buf)@.len() == 0 ==> count is Ok,
    {
        match self {
            Stream::Tcp(sock) => tcp::read(sock, buf),
            Stream::TlsConnecting(sock) => tcp::read(sock, buf),
            Stream::TlsEstablished(session) => tls::read(session, buf),
        }
    }
}

impl std::io::Write for Stream {
    /// Hands the write to the socket, or to the session once there is one,
    /// and returns what came of it. Neither waits. A session answers a write
    /// of an empty `buf` at once, with no bytes.
    fn write(&mut self, buf: &[u8]) -> (count: std::io::Result<usize>)
        ensures
            old(self).writes(*final(self), buf@, count),
            old(self).carried(*final(self)),
            count matches Ok(n) ==> n <= buf@.len(),
            old(self).secured() && buf@.len() == 0 ==> count is Ok,
    {
        match self {
            Stream::Tcp(sock) => tcp::write(sock, buf),
            Stream::TlsConnecting(sock) => tcp::write(sock, buf),
            Stream::TlsEstablished(session) => tls::write(session, buf),
        }
    }

    /// Hands the flush to the socket, or to the session once there is one,
    /// and returns what came of it.
    fn flush(&mut self) -> (done: std::io::Result<()>)
        ensures
            old(self).flushes(*final(self), done),
            old(self).carried(*final(self)),
    {
        match self {
            Stream::Tcp(sock) => tcp::flush(sock),
            Stream::TlsConnecting(sock) => tcp::flush(sock),
            Stream::TlsEstablished(session) => tls::flush(session),
        }
    }
}

} // verus!
