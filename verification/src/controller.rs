//! The controller: what it is configured with, and the rules of its
//! front-end.
pub mod config;
pub mod tui;
