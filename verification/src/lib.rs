//! Transport layer of a WebSocket endpoint: one socket per connection that
//! can move from plain TCP to TLS while a single-threaded reactor polls it,
//! and the factory that supplies each connection's handler and settings.

pub mod communication;
pub mod connection;
pub mod io;
pub mod message;
pub mod result;
