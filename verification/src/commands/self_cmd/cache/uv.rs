//! Management of the cached fast-installer binary.

use vstd::prelude::*;

use crate::app::{managed_uv, spec_managed_uv};
use crate::commands::self_cmd::cache::cli::{cache_action_model, spec_artifact_action, CacheAction, CacheActionModel};
use crate::config::Config;
use crate::distribution::WorldView;

verus! {

/// The fast-installer cache subcommand.
pub struct Cli {
    /// Remove the artifact instead of showing its path.
    pub remove: bool,
}

/// What the fast-installer subcommand decides: nothing unless the
/// fast installer is enabled.
pub open spec fn spec_uv_cache_action(cli: Cli, cfg: Config, w: WorldView) -> CacheActionModel {
    spec_artifact_action(
        cfg.uv_enabled,
        "UV is not enabled"@,
        w.uv_binary_present,
        cli.remove,
        spec_managed_uv(cfg),
    )
}

impl Cli {
    /// Decides what to do with the cached fast-installer binary.
    pub fn exec(self, cfg: &Config, w: &WorldView) -> (r: CacheAction)
        ensures
            cache_action_model(r) == spec_uv_cache_action(self, *cfg, *w),
    {
        if !cfg.uv_enabled {
            CacheAction::NotEnabled { message: "UV is not enabled".to_owned() }
        } else if !w.uv_binary_present {
            CacheAction::Missing { report: self.remove }
        } else if self.remove {
            CacheAction::RemoveFile { path: managed_uv(cfg) }
        } else {
            CacheAction::ShowPath { path: managed_uv(cfg) }
        }
    }
}

} // verus!
