//! The statements that the server sends to its store.

pub mod create_account;
pub mod create_position;
pub mod create_stock;
pub mod get_user_hash;
pub mod user_exists;
