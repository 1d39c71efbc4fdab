//! The connection: what a socket and a TLS session report, and what is to be
//! done about it.

pub mod frames;
pub mod io;
pub mod tls_client;
pub mod tls_connection;
