//! The TLS library, as far as the transport uses it.

use mio::net::TcpStream;
use openssl::error::ErrorStack;
use openssl::ssl::Error as HandshakeFailure;
use openssl::ssl::{Ssl, SslContext, SslContextBuilder, SslMethod, SslStream, SslVersion};
use std::io::{Read, Write};
use vstd::prelude::*;

verus! {

/// OpenSSL's context: the configuration that TLS sessions are made from.
#[verifier::external_type_specification]
#[verifier::external_body]
pub struct ExSslContext(openssl::ssl::SslContext);

/// OpenSSL's context while it is being configured.
#[verifier::external_type_specification]
#[verifier::external_body]
pub struct ExSslContextBuilder(openssl::ssl::SslContextBuilder);

/// OpenSSL's number for a version of the protocol.
#[verifier::external_type_specification]
#[verifier::external_body]
pub struct ExSslVersion(openssl::ssl::SslVersion);

/// OpenSSL's state of one TLS session before it has a stream.
#[verifier::external_type_specification]
#[verifier::external_body]
pub struct ExSsl(openssl::ssl::Ssl);

/// OpenSSL's TLS session over a stream that it owns.
#[verifier::external_type_specification]
#[verifier::external_body]
#[verifier::reject_recursive_types(Inner)]
pub struct ExSslStream<Inner>(openssl::ssl::SslStream<Inner>);

/// The stream that `SslStream::get_ref` gives for `tls`: the one it was made
/// over.
pub uninterp spec fn tls_socket(tls: SslStream<TcpStream>) -> TcpStream;

/// Whether `made` is what `SslContext::builder` can return for
/// `SslMethod::tls`.
pub uninterp spec fn context_builder(made: Result<SslContextBuilder, ErrorStack>) -> bool;

/// Calls `SslContext::builder` with `SslMethod::tls`: the start of a
/// context that may speak every version of TLS, or the library's errors.
#[verifier::external_body]
pub(crate) fn builder() -> (made: Result<SslContextBuilder, ErrorStack>)
    ensures
        context_builder(made),
{
    SslContext::builder(SslMethod::tls())
}

/// A version of the protocol that a context can be held to.
pub enum Protocol {
    /// TLS 1.0.
    Tls1,
    /// TLS 1.1.
    Tls11,
    /// TLS 1.2.
    Tls12,
}

/// The number that OpenSSL's constants give for `protocol`.
pub uninterp spec fn version_of(protocol: Protocol) -> SslVersion;

/// Gives the constant of `SslVersion` that stands for `protocol`: `TLS1`,
/// `TLS1_1` or `TLS1_2`.
#[verifier::external_body]
pub(crate) fn version(protocol: Protocol) -> (version: SslVersion)
    ensures
        version == version_of(protocol),
{
    match protocol {
        Protocol::Tls1 => SslVersion::TLS1,
        Protocol::Tls11 => SslVersion::TLS1_1,
        Protocol::Tls12 => SslVersion::TLS1_2,
    }
}

/// Whether `SslContextBuilder::set_min_proto_version` with `version` can
/// leave `builder` as `left`, with success where `refusal` is `None` and
/// else with the errors in it.
pub uninterp spec fn min_bound(
    builder: SslContextBuilder,
    version: SslVersion,
    left: SslContextBuilder,
    refusal: Option<ErrorStack>,
) -> bool;

/// Calls `SslContextBuilder::set_min_proto_version` with `version`, the
/// lowest that the context may then speak.
#[verifier::external_body]
pub(crate) fn set_min_proto_version(builder: &mut SslContextBuilder, version: SslVersion) -> (done: Result<
    (),
    ErrorStack,
>)
    ensures
        min_bound(
            *old(builder),
            version,
            *final(builder),
            match done {
                Ok(_) => None,
                Err(stack) => Some(stack),
            },
        ),
{
    builder.set_min_proto_version(Some(version))
}

/// Whether `SslContextBuilder::set_max_proto_version` with `version` can
/// leave `builder` as `left`, with success where `refusal` is `None` and
/// else with the errors in it.
pub uninterp spec fn max_bound(
    builder: SslContextBuilder,
    version: SslVersion,
    left: SslContextBuilder,
    refusal: Option<ErrorStack>,
) -> bool;

/// Calls `SslContextBuilder::set_max_proto_version` with `version`, the
/// highest that the context may then speak.
#[verifier::external_body]
pub(crate) fn set_max_proto_version(builder: &mut SslContextBuilder, version: SslVersion) -> (done: Result<
    (),
    ErrorStack,
>)
    ensures
        max_bound(
            *old(builder),
            version,
            *final(builder),
            match done {
                Ok(_) => None,
                Err(stack) => Some(stack),
            },
        ),
{
    builder.set_max_proto_version(Some(version))
}

/// The context that `SslContextBuilder::build` makes of `builder`.
pub uninterp spec fn built(builder: SslContextBuilder) -> SslContext;

/// Calls `SslContextBuilder::build`: the context as configured so far.
#[verifier::external_body]
pub(crate) fn build(builder: SslContextBuilder) -> (context: SslContext)
    ensures
        context == built(builder),
{
    builder.build()
}

/// Whether `upper` is a builder for TLS 1.0 alone that came of `start`: a
/// fresh builder for every version of TLS that took that version as its
/// lower bound, which left `lower`, and then as its upper bound.
pub open spec fn held_to_tls_v1(
    start: SslContextBuilder,
    lower: SslContextBuilder,
    upper: SslContextBuilder,
) -> bool {
    &&& context_builder(Ok(start))
    &&& min_bound(start, version_of(Protocol::Tls1), lower, None)
    &&& max_bound(lower, version_of(Protocol::Tls1), upper, None)
}

/// Whether `made` is a context for TLS 1.0 alone: what comes of building a
/// fresh builder that was held to that version at both ends.
pub open spec fn tls_v1(made: SslContext) -> bool {
    exists|start: SslContextBuilder, lower: SslContextBuilder, upper: SslContextBuilder|
        #![trigger held_to_tls_v1(start, lower, upper)]
        held_to_tls_v1(start, lower, upper) && made == built(upper)
}

/// Whether `stack` holds the errors with which the TLS library can refuse
/// to make a context for TLS 1.0 alone: it gave no builder, or the builder
/// did not take the version as its lower or, after that, as its upper bound.
pub open spec fn tls_v1_refused(stack: ErrorStack) -> bool {
    ||| context_builder(Err(stack))
    ||| exists|start: SslContextBuilder, left: SslContextBuilder|
        #![trigger min_bound(start, version_of(Protocol::Tls1), left, Some(stack))]
        context_builder(Ok(start)) && min_bound(
            start,
            version_of(Protocol::Tls1),
            left,
            Some(stack),
        )
    ||| exists|start: SslContextBuilder, lower: SslContextBuilder, left: SslContextBuilder|
        #![trigger min_bound(start, version_of(Protocol::Tls1), lower, None), max_bound(lower, version_of(Protocol::Tls1), left, Some(stack))]
        context_builder(Ok(start)) && min_bound(start, version_of(Protocol::Tls1), lower, None)
            && max_bound(lower, version_of(Protocol::Tls1), left, Some(stack))
}

/// The context that `SslRef::ssl_context` gives for `session`: the one it
/// was made of.
pub uninterp spec fn context_of(session: Ssl) -> SslContext;

/// The context that `SslRef::ssl_context` gives for the session of `tls`
/// as it stands. A handshake may run callbacks of the context that put
/// another in its place, so this is known of a session only until then.
pub uninterp spec fn session_context(tls: SslStream<TcpStream>) -> SslContext;

/// Calls `Ssl::new`: a fresh session of `context`, or the library's errors.
#[verifier::external_body]
pub(crate) fn new_session(context: &SslContext) -> (session: Result<Ssl, ErrorStack>)
    ensures
        session matches Ok(made) ==> context_of(made) == *context,
{
    Ssl::new(context)
}

/// Calls `SslStream::new`, which does no I/O: on success the result is
/// `session` over `sock`, and `sock` is the stream that it hands out.
#[verifier::external_body]
pub(crate) fn over(session: Ssl, sock: TcpStream) -> (tls: Result<SslStream<TcpStream>, ErrorStack>)
    ensures
        tls matches Ok(stream) ==> tls_socket(stream) == sock && session_context(stream)
            == context_of(session),
{
    SslStream::new(session, sock)
}

/// Whether the client's side of the handshake on `tls` can leave the
/// session as `left` and return `done`.
pub uninterp spec fn session_connect(
    tls: SslStream<TcpStream>,
    left: SslStream<TcpStream>,
    done: Result<(), HandshakeFailure>,
) -> bool;

/// Calls `SslStream::connect`, the client's side of the handshake. Whatever
/// comes of it, the session stays over the same stream.
#[verifier::external_body]
pub(crate) fn connect(tls: &mut SslStream<TcpStream>) -> (done: Result<(), HandshakeFailure>)
    ensures
        session_connect(*old(tls), *final(tls), done),
        tls_socket(*final(tls)) == tls_socket(*old(tls)),
{
    tls.connect()
}

/// Calls `SslStream::get_ref`: the stream under the session.
#[verifier::external_body]
pub(crate) fn get_ref(tls: &SslStream<TcpStream>) -> (sock: &TcpStream)
    ensures
        *sock == tls_socket(*tls),
{
    tls.get_ref()
}

/// The I/O error that `Error::into_io_error` finds in `failure`, if the
/// transport was what stopped the operation.
pub uninterp spec fn io_cause(failure: HandshakeFailure) -> Option<std::io::Error>;

/// Calls `Error::into_io_error`: the I/O error that stopped the operation,
/// or the error itself where the transport was not the cause.
#[verifier::external_body]
pub(crate) fn into_io_error(failure: HandshakeFailure) -> (cause: Result<std::io::Error, HandshakeFailure>)
    ensures
        cause == match io_cause(failure) {
            Some(ioerr) => Ok::<std::io::Error, HandshakeFailure>(ioerr),
            None => Err::<std::io::Error, HandshakeFailure>(failure),
        },
{
    failure.into_io_error()
}

/// Whether a read on the session `tls` into a buffer that holds `before`
/// can leave the session as `left`, `after` in the buffer, and return
/// `count`.
pub uninterp spec fn session_read(
    tls: SslStream<TcpStream>,
    left: SslStream<TcpStream>,
    before: Seq<u8>,
    after: Seq<u8>,
    count: Result<usize, std::io::Error>,
) -> bool;

/// Calls `Read::read` on the session: on success the count is the number of
/// decrypted bytes put at the front of `buf`, never more than it holds. An
/// empty `buf` is answered at once, with no bytes. The session stays over
/// the same stream.
#[verifier::external_body]
pub(crate) fn read(tls: &mut SslStream<TcpStream>, buf: &mut [u8]) -> (count: Result<usize, std::io::Error>)
    ensures
        session_read(*old(tls), *final(tls), old(buf)@, final(buf)@, count),
        tls_socket(*final(tls)) == tls_socket(*old(tls)),
        final(buf)@.len() == old(buf)@.len(),
        count matches Ok(n) ==> n <= old(buf)@.len(),
        old(buf)@.len() == 0 ==> count is Ok,
{
    tls.read(buf)
}

/// Whether a write of `bytes` on the session `tls` can leave the session as
/// `left` and return `count`.
pub uninterp spec fn session_write(
    tls: SslStream<TcpStream>,
    left: SslStream<TcpStream>,
    bytes: Seq<u8>,
    count: Result<usize, std::io::Error>,
) -> bool;

/// Calls `Write::write` on the session: on success the count is the number
/// of bytes of `buf` that were taken, from its front. An empty `buf` is
/// answered at once, with no bytes. The session stays over the same stream.
#[verifier::external_body]
pub(crate) fn write(tls: &mut SslStream<TcpStream>, buf: &[u8]) -> (count: Result<usize, std::io::Error>)
    ensures
        session_write(*old(tls), *final(tls), buf@, count),
        tls_socket(*final(tls)) == tls_socket(*old(tls)),
        count matches Ok(n) ==> n <= buf@.len(),
        buf@.len() == 0 ==> count is Ok,
{
    tls.write(buf)
}

/// Whether a flush of the session `tls` can leave the session as `left` and
/// return `done`.
pub uninterp spec fn session_flush(
    tls: SslStream<TcpStream>,
    left: SslStream<TcpStream>,
    done: Result<(), std::io::Error>,
) -> bool;

/// Calls `Write::flush` on the session, which flushes the stream under it.
/// The session stays over the same stream.
#[verifier::external_body]
pub(crate) fn flush(tls: &mut SslStream<TcpStream>) -> (done: Result<(), std::io::Error>)
    ensures
        session_flush(*old(tls), *final(tls), done),
        tls_socket(*final(tls)) == tls_socket(*old(tls)),
{
    tls.flush()
}

} // verus!
