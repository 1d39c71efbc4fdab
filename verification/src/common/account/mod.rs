//! Accounts, what they hold, and the hashing of their credentials.

pub mod hash;
pub mod portfolio;
pub mod position;
pub mod transaction;
