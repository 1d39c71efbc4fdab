//! Items shared by the client and the server.

pub mod account;
pub mod generic;
pub mod message;
pub mod misc;
