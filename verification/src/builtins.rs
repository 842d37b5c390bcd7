//! Builtin commands.
pub mod minfd;
