//! The launcher's own management subcommands.

pub mod cache;
pub mod cli;
pub mod metadata;
pub mod pip;
pub mod python;
pub mod python_path;
pub mod remove;
pub mod restore;
pub mod update;
