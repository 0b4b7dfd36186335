//! The administrative command surface: plain data structures for the
//! parsed commands, and verified decision functions for what each of
//! them does.

pub mod cli;
pub mod self_cmd;
