//! What the server does with the frames that reach it.

pub mod cmd;
pub mod handle_data;
