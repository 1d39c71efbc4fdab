//! The message frame, its wire format and the payload layouts.

pub mod inst;
pub mod message;
pub mod message_builder;
pub mod message_type;
pub mod payload;
pub mod wire;
