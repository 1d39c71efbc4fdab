//! What the client does on its connection.

pub mod cmd;
