//! What only the server does.

pub mod account;
pub mod db;
pub mod ds;
pub mod network;
