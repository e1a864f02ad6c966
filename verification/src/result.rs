//! The failures that the transport layer reports.

use openssl::ssl::Error as HandshakeFailure;
use vstd::prelude::*;

verus! {

/// The standard library's I/O error, carried through as it came.
#[verifier::external_type_specification]
#[verifier::external_body]
pub struct ExIoError(std::io::Error);

/// OpenSSL's list of library errors, carried through as it came.
#[verifier::external_type_specification]
#[verifier::external_body]
pub struct ExErrorStack(openssl::error::ErrorStack);

/// OpenSSL's error of one TLS operation, carried through as it came.
#[verifier::external_type_specification]
#[verifier::external_body]
pub struct ExHandshakeFailure(HandshakeFailure);

/// Whether `std::io::Error::kind` gives `ErrorKind::WouldBlock` for `err`.
pub uninterp spec fn io_would_block(err: std::io::Error) -> bool;

/// Calls `std::io::Error::kind` and says whether the kind is
/// `ErrorKind::WouldBlock`: the operation could not finish without waiting.
#[verifier::external_body]
pub(crate) fn would_block(err: &std::io::Error) -> (blocked: bool)
    ensures
        blocked == io_would_block(*err),
{
    matches!(err.kind(), std::io::ErrorKind::WouldBlock)
}

/// What went wrong.
#[derive(Debug)]
pub enum Kind {
    /// The transport failed. The error is the one the socket gave.
    Io(std::io::Error),
    /// The TLS library could not set up a context or a session.
    Ssl(openssl::error::ErrorStack),
    /// TLS negotiation failed, and the transport was not the cause.
    Handshake(HandshakeFailure),
    /// The operation is not implemented.
    Unsupported,
}

/// A failure of the transport layer: its kind, and what else is known.
#[derive(Debug)]
pub struct Error {
    pub kind: Kind,
    pub details: &'static str,
}

/// What an attempt to accept TLS as a server is answered with.
pub const NO_ACCEPTANCE: &'static str = "TLS acceptance is not implemented";

/// What the transport layer returns where it can fail.
pub type Result<T> = std::result::Result<T, Error>;

impl Error {
    /// Whether this is a transport failure that only asks the caller to wait.
    pub open spec fn is_would_block(self) -> bool {
        self.kind matches Kind::Io(err) && io_would_block(err)
    }

    /// A failure of the given kind, with what else is known of it.
    pub fn new(kind: Kind, details: &'static str) -> (error: Error)
        ensures
            error == (Error { kind, details }),
    {
        Error { kind, details }
    }
}

} // verus!
