//! Startup policy of a desktop application shell.
//!
//! The shell attaches its plugins, runs a setup hook once the runtime is up,
//! and then enters the event loop. This crate holds every decision of that
//! sequence as verified functions on plain values; the program around it
//! performs the window-system calls and reports back what happened.

pub mod laws;
pub mod plugins;
pub mod setup;
pub mod shell;
pub mod target;
pub mod window;
