//! The state of the terminal interface, and what its views show.
pub mod detail;
pub mod shared;
pub mod state;
