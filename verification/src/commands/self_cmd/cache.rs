//! Inspection and removal of the cached artifacts.

pub mod cli;
pub mod dist;
pub mod pip;
pub mod uv;
