//! A verified core for a self-contained application launcher.
//!
//! The library models the installation materialization engine of a
//! launcher that, on first run, provisions a language runtime and
//! installs an application payload into it: distribution identity and
//! caching, cross-process lock naming, the install/repair/update plans,
//! and the process-execution discipline.  Everything effectful (file
//! system, network, subprocesses) is decided here as plain data and
//! performed by a thin unverified shell around the library.

pub mod app;
pub mod commands;
pub mod compression;
pub mod config;
pub mod distribution;
pub mod fs_utils;
pub mod identity;
pub mod process;
pub mod strutil;
