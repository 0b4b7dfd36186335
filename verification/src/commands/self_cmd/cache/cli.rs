//! Dispatch for the cache subcommands, and what a cache subcommand
//! decides to do.

use vstd::prelude::*;

use crate::config::Config;
use crate::distribution::WorldView;

verus! {

/// What a cache subcommand does: report a disabled feature, report a
/// missing artifact, remove the artifact, or show its path.
pub enum CacheAction {
    /// The artifact's feature is not enabled; say so.
    NotEnabled {
        /// The message shown to the user.
        message: String,
    },
    /// The artifact does not exist; report it only when removal was
    /// asked for.
    Missing {
        /// Whether "Does not exist" is reported.
        report: bool,
    },
    /// Remove the artifact file.
    RemoveFile {
        /// The file to remove.
        path: String,
    },
    /// Show the artifact's path.
    ShowPath {
        /// The file whose path is shown.
        path: String,
    },
}

/// The mathematical shape of a cache action.
pub enum CacheActionModel {
    /// The feature is not enabled.
    NotEnabled(Seq<char>),
    /// The artifact is missing.
    Missing(bool),
    /// Remove the file at this path.
    RemoveFile(Seq<char>),
    /// Show this path.
    ShowPath(Seq<char>),
}

/// The model of a cache action.
pub open spec fn cache_action_model(a: CacheAction) -> CacheActionModel {
    match a {
        CacheAction::NotEnabled { message } => CacheActionModel::NotEnabled(message@),
        CacheAction::Missing { report } => CacheActionModel::Missing(report),
        CacheAction::RemoveFile { path } => CacheActionModel::RemoveFile(path@),
        CacheAction::ShowPath { path } => CacheActionModel::ShowPath(path@),
    }
}

/// What one artifact subcommand decides, given whether its feature is
/// enabled, whether the artifact exists, and its path.
pub open spec fn spec_artifact_action(
    enabled: bool,
    disabled_message: Seq<char>,
    present: bool,
    remove: bool,
    path: Seq<char>,
) -> CacheActionModel {
    if !enabled {
        CacheActionModel::NotEnabled(disabled_message)
    } else if !present {
        CacheActionModel::Missing(remove)
    } else if remove {
        CacheActionModel::RemoveFile(path)
    } else {
        CacheActionModel::ShowPath(path)
    }
}

/// The cache management command.
pub struct Cli {
    /// Which artifact it concerns.
    pub command: Commands,
}

/// The cache subcommands.
pub enum Commands {
    /// The cached runtime archive.
    Dist(crate::commands::self_cmd::cache::dist::Cli),
    /// The cached external installer zipapp.
    Pip(crate::commands::self_cmd::cache::pip::Cli),
    /// The cached fast-installer binary.
    Uv(crate::commands::self_cmd::cache::uv::Cli),
}

/// What the dispatched cache subcommand decides.
pub open spec fn spec_cache_cli_action(cli: Cli, cfg: Config, w: WorldView) -> CacheActionModel {
    match cli.command {
        Commands::Dist(c) => crate::commands::self_cmd::cache::dist::spec_dist_action(c, cfg, w),
        Commands::Pip(c) => crate::commands::self_cmd::cache::pip::spec_pip_cache_action(c, cfg, w),
        Commands::Uv(c) => crate::commands::self_cmd::cache::uv::spec_uv_cache_action(c, cfg, w),
    }
}

impl Cli {
    /// Dispatches to the artifact subcommand.
    pub fn exec(self, cfg: &Config, w: &WorldView) -> (r: CacheAction)
        ensures
            cache_action_model(r) == spec_cache_cli_action(self, *cfg, *w),
    {
        match self.command {
            Commands::Dist(c) => c.exec(cfg, w),
            Commands::Pip(c) => c.exec(cfg, w),
            Commands::Uv(c) => c.exec(cfg, w),
        }
    }
}

} // verus!
