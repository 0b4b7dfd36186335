//! Removing the installation.

use vstd::prelude::*;

use crate::distribution::WorldView;

verus! {

/// The remove command.
pub struct Cli {}

impl Cli {
    /// Decides whether there is an installation directory to delete.
    pub fn exec(self, w: &WorldView) -> (r: bool)
        ensures
            r == w.install_dir_present,
    {
        w.install_dir_present
    }
}

} // verus!
