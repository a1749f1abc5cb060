//! Information about the live machine.

pub mod system;
