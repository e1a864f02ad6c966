//! What the peers of a connection send each other.

use vstd::prelude::*;

verus! {

/// One message of a peer, as the layers above the transport assemble it.
#[derive(Debug, Clone, PartialEq, Eq)]
pub enum Message {
    /// A message of text.
    Text(String),
    /// A message of bytes.
    Binary(Vec<u8>),
}

} // verus!
