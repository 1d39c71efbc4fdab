//! The client's part in creating an account.

pub mod creation;
pub mod hash_email;
pub mod hash_pwd;
