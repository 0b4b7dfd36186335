//! Management of the cached runtime archive.

use vstd::prelude::*;

use crate::app::{distribution_file, spec_distribution_file};
use crate::commands::self_cmd::cache::cli::{cache_action_model, spec_artifact_action, CacheAction, CacheActionModel};
use crate::config::Config;
use crate::distribution::WorldView;

verus! {

/// The runtime-archive cache subcommand.
pub struct Cli {
    /// Remove the artifact instead of showing its path.
    pub remove: bool,
}

/// What the runtime-archive subcommand decides: the archive cache is
/// always enabled, and the artifact is the cached archive itself.
pub open spec fn spec_dist_action(cli: Cli, cfg: Config, w: WorldView) -> CacheActionModel {
    spec_artifact_action(
        true,
        Seq::<char>::empty(),
        w.dist_archive_cached,
        cli.remove,
        spec_distribution_file(cfg),
    )
}

impl Cli {
    /// Decides what to do with the cached runtime archive.
    pub fn exec(self, cfg: &Config, w: &WorldView) -> (r: CacheAction)
        ensures
            cache_action_model(r) == spec_dist_action(self, *cfg, *w),
    {
        if !w.dist_archive_cached {
            CacheAction::Missing { report: self.remove }
        } else if self.remove {
            CacheAction::RemoveFile { path: distribution_file(cfg) }
        } else {
            CacheAction::ShowPath { path: distribution_file(cfg) }
        }
    }
}

} // verus!
