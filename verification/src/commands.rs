//! The operations that a user can ask for, one module each.

pub mod display;
pub mod edit;
pub mod pause;
pub mod start;
pub mod status;
pub mod stop;
pub mod tasks;
