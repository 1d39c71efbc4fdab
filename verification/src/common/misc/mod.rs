//! Flags and checks used throughout the library.

pub mod assert_msg;
pub mod hex;
pub mod return_flags;
pub mod text;
