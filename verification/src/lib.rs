//! Networking and security core of a client/server trading platform: a binary
//! message protocol, the connection state machine that carries it, and the
//! account creation handshake that never sends or stores a raw password.
//!
//! Everything here computes on plain values. Sockets, TLS sessions and the
//! database live with the caller, who reports what they did and is told what
//! to do next.

pub mod agreement;
pub mod client;
pub mod common;
pub mod network;
pub mod server;
