//! The server's dealings with its store.

pub mod cmd;
pub mod config;
pub mod initializer;
pub mod statement;
