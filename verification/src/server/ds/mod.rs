//! The data that only the server holds.

pub mod account;
