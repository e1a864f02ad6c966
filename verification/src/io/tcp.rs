//! The reactor's non-blocking TCP socket, as far as the transport uses it.

use mio::net::TcpStream;
use std::io::{Read, Write};
use vstd::prelude::*;

verus! {

/// mio's TCP stream: a handle to one connection that a reactor can poll.
#[verifier::external_type_specification]
#[verifier::external_body]
pub struct ExTcpStream(mio::net::TcpStream);

/// Whether `handle` is what `TcpStream::try_clone` can give for `sock`.
pub uninterp spec fn socket_clone(
    sock: TcpStream,
    handle: std::result::Result<TcpStream, std::io::Error>,
) -> bool;

/// Whether `second` is a handle that `TcpStream::try_clone` made of `first`.
pub open spec fn shares_stream(first: TcpStream, second: TcpStream) -> bool {
    socket_clone(first, Ok(second))
}

/// Calls `TcpStream::try_clone`: on success the result is a new handle that
/// refers to the same stream as `sock` and keeps its reactor association.
#[verifier::external_body]
pub(crate) fn try_clone(sock: &TcpStream) -> (handle: std::result::Result<TcpStream, std::io::Error>)
    ensures
        socket_clone(*sock, handle),
{
    sock.try_clone()
}

/// Whether a read on `sock` into a buffer that holds `before` can leave
/// `after` in it and return `count`.
pub uninterp spec fn socket_read(
    sock: TcpStream,
    before: Seq<u8>,
    after: Seq<u8>,
    count: std::result::Result<usize, std::io::Error>,
) -> bool;

/// Calls `Read::read` on the socket, which does not wait: on success the
/// count is the number of bytes put at the front of `buf`, never more than
/// it holds.
#[verifier::external_body]
pub(crate) fn read(mut sock: &TcpStream, buf: &mut [u8]) -> (count: std::result::Result<usize, std::io::Error>)
    ensures
        socket_read(*sock, old(buf)@, final(buf)@, count),
        final(buf)@.len() == old(buf)@.len(),
        count matches Ok(n) ==> n <= old(buf)@.len(),
{
    sock.read(buf)
}

/// Whether a write of `bytes` on `sock` can return `count`.
pub uninterp spec fn socket_write(
    sock: TcpStream,
    bytes: Seq<u8>,
    count: std::result::Result<usize, std::io::Error>,
) -> bool;

/// Calls `Write::write` on the socket, which does not wait: on success the
/// count is the number of bytes of `buf` that were taken, from its front.
#[verifier::external_body]
pub(crate) fn write(mut sock: &TcpStream, buf: &[u8]) -> (count: std::result::Result<usize, std::io::Error>)
    ensures
        socket_write(*sock, buf@, count),
        count matches Ok(n) ==> n <= buf@.len(),
{
    sock.write(buf)
}

/// Whether a flush of `sock` can return `done`.
pub uninterp spec fn socket_flush(sock: TcpStream, done: std::result::Result<(), std::io::Error>) -> bool;

/// Calls `Write::flush` on the socket.
#[verifier::external_body]
pub(crate) fn flush(mut sock: &TcpStream) -> (done: std::result::Result<(), std::io::Error>)
    ensures
        socket_flush(*sock, done),
{
    sock.flush()
}

} // verus!
