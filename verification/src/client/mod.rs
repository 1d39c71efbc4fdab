//! What only the client does.

pub mod account;
pub mod initializer;
pub mod network;
