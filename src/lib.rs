//! Launch-resolution and command-dispatch logic of a small game-launcher shell.
//!
//! The library decides; the host application performs the I/O that each
//! decision asks for (locating the data directory, reading the settings file,
//! checking that a file exists, spawning a process, showing a dialog, opening a
//! link) and feeds the outcome back as an event.
pub mod paths;
pub mod notify;
pub mod config;
pub mod launch;
pub mod command;
pub mod dispatch;
pub mod laws;
