//! The handlers of the instructions that the server understands.

pub mod gen_hash_salt;
pub mod register;
pub mod retrieve_transactions;
