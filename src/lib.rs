//! Guarded command execution: a dry-run gate, executable lookup, working-directory
//! scoping, and safe lifecycle operations for Python virtual environments.
//!
//! The library decides what is to happen; the program around it starts processes and
//! touches the filesystem as the returned plans say.

pub mod args_file;
pub mod buf;
pub mod error;
pub mod executor;
pub mod laws;
pub mod paths;
pub mod venv;
