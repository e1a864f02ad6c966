//! Byte transport: the stream of one connection and the sockets under it.

pub mod laws;
pub mod stream;
pub mod tcp;
pub mod tls;
