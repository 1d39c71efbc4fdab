//! The commands that the client sends, and the waiting for their answers.

pub mod get_server_salt;
pub mod wait_and_read_branched;
