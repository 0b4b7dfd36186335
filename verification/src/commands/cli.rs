//! The top-level command: everything the launcher accepts beyond
//! plain application invocation nests under the management command.

use vstd::prelude::*;

use crate::commands::self_cmd::cli::{self_action_model, spec_self_action, SelfAction};
use crate::config::Config;
use crate::distribution::WorldView;
use crate::process::RuntimeEnv;

verus! {

/// The parsed top-level command line.
pub struct Cli {
    /// The command that was invoked.
    pub command: Commands,
}

/// The top-level subcommands.
pub enum Commands {
    /// The management command, exposed under the configured name.
    SelfCmd(crate::commands::self_cmd::cli::Cli),
}

impl Cli {
    /// Dispatches the parsed command.
    pub fn exec(self, cfg: &Config, w: &WorldView, renv: &RuntimeEnv) -> (r: SelfAction)
        ensures
            match self.command {
                Commands::SelfCmd(c) => self_action_model(r) == spec_self_action(
                    c,
                    *cfg,
                    *w,
                    *renv,
                ),
            },
    {
        match self.command {
            Commands::SelfCmd(c) => c.exec(cfg, w, renv),
        }
    }
}

} // verus!
