//! Management of the cached external installer zipapp.

use vstd::prelude::*;

use crate::app::{external_pip_zipapp, spec_external_pip_zipapp};
use crate::commands::self_cmd::cache::cli::{cache_action_model, spec_artifact_action, CacheAction, CacheActionModel};
use crate::config::Config;
use crate::distribution::WorldView;

verus! {

/// The external-installer cache subcommand.
pub struct Cli {
    /// Remove the artifact instead of showing its path.
    pub remove: bool,
}

/// What the external-installer subcommand decides: nothing unless the
/// external installer is enabled.
pub open spec fn spec_pip_cache_action(cli: Cli, cfg: Config, w: WorldView) -> CacheActionModel {
    spec_artifact_action(
        cfg.pip_external,
        "External pip not enabled"@,
        w.pip_zipapp_present,
        cli.remove,
        spec_external_pip_zipapp(cfg),
    )
}

impl Cli {
    /// Decides what to do with the cached external installer zipapp.
    pub fn exec(self, cfg: &Config, w: &WorldView) -> (r: CacheAction)
        ensures
            cache_action_model(r) == spec_pip_cache_action(self, *cfg, *w),
    {
        if !cfg.pip_external {
            CacheAction::NotEnabled { message: "External pip not enabled".to_owned() }
        } else if !w.pip_zipapp_present {
            CacheAction::Missing { report: self.remove }
        } else if self.remove {
            CacheAction::RemoveFile { path: external_pip_zipapp(cfg) }
        } else {
            CacheAction::ShowPath { path: external_pip_zipapp(cfg) }
        }
    }
}

} // verus!
