//! The state that is shared by everything the library does.

pub mod company;
pub mod global_state;
