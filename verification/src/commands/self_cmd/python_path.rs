//! Showing the path of the installed interpreter.

use vstd::prelude::*;

use crate::app::{python_path, spec_python_path};
use crate::config::Config;

verus! {

/// The interpreter-path command.
pub struct Cli {}

impl Cli {
    /// The path that is printed.
    pub fn exec(self, cfg: &Config) -> (r: String)
        ensures
            r@ == spec_python_path(*cfg),
    {
        python_path(cfg)
    }
}

} // verus!
