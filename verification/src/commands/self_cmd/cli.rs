//! Dispatch for the management subcommands, and what each decides.

use vstd::prelude::*;

use crate::app::spec_python_path;
use crate::commands::self_cmd::cache::cli::{cache_action_model, CacheAction, CacheActionModel};
use crate::commands::self_cmd::restore::spec_restore_plan;
use crate::commands::self_cmd::update::{spec_update_allowed, spec_update_plan};
use crate::commands::self_cmd::pip::spec_pip_passthrough_plan;
use crate::config::Config;
use crate::distribution::{spec_ensure_ready_plan, spec_env_overlay, spec_pip_base_args, spec_pip_program, Step, WorldView};
use crate::process::{CommandSpec, RuntimeEnv};

verus! {

/// What a management subcommand decides to do.  Staged flows (the
/// upgrade subprocess, metadata inspection) carry their first stage
/// here and continue through the dedicated functions of their module.
pub enum SelfAction {
    /// A cache artifact action.
    Cache(CacheAction),
    /// Inspect and display metadata, when an installation exists.
    Metadata {
        /// Whether there is an installation to inspect.
        inspect: bool,
    },
    /// Prepare the installer and run it with passthrough arguments.
    Pip {
        /// The preparation steps.
        plan: Vec<Step>,
        /// The installer invocation.
        command: CommandSpec,
    },
    /// Prepare the installation and run its interpreter.
    Python {
        /// The preparation steps.
        plan: Vec<Step>,
        /// The interpreter invocation.
        command: CommandSpec,
    },
    /// Show the interpreter path.
    PythonPath {
        /// The path shown.
        path: String,
    },
    /// Delete the installation if it exists.
    Remove {
        /// Whether there is an installation directory to delete.
        remove: bool,
    },
    /// Delete and re-materialize the installation.
    Restore {
        /// The steps performed.
        plan: Vec<Step>,
    },
    /// Upgrade the payload in place.
    Update {
        /// Whether updating is allowed at all.
        allowed: bool,
        /// Whether pre-release versions are allowed.
        pre: bool,
        /// Whether the installation is restored first.
        restore: bool,
        /// The steps preceding and preparing the upgrade subprocess.
        plan: Vec<Step>,
    },
}

/// The mathematical shape of a management action.
pub enum SelfActionModel {
    /// A cache artifact action.
    Cache(CacheActionModel),
    /// Metadata inspection, with whether there is anything to show.
    Metadata(bool),
    /// Installer passthrough: steps, program, arguments, environment.
    Pip(Seq<Step>, Seq<char>, Seq<Seq<char>>, Seq<(Seq<char>, Seq<char>)>),
    /// Interpreter passthrough: steps, program, arguments,
    /// environment.
    Python(Seq<Step>, Seq<char>, Seq<Seq<char>>, Seq<(Seq<char>, Seq<char>)>),
    /// The path shown.
    PythonPath(Seq<char>),
    /// Whether the installation is deleted.
    Remove(bool),
    /// The restore steps.
    Restore(Seq<Step>),
    /// Whether updating is allowed, the pre-release and restore
    /// switches, and the update steps.
    Update(bool, bool, bool, Seq<Step>),
}

/// The model of a management action.
pub open spec fn self_action_model(a: SelfAction) -> SelfActionModel {
    match a {
        SelfAction::Cache(c) => SelfActionModel::Cache(cache_action_model(c)),
        SelfAction::Metadata { inspect } => SelfActionModel::Metadata(inspect),
        SelfAction::Pip { plan, command } => SelfActionModel::Pip(
            plan@,
            command.program@,
            command.args_view(),
            command.env_view(),
        ),
        SelfAction::Python { plan, command } => SelfActionModel::Python(
            plan@,
            command.program@,
            command.args_view(),
            command.env_view(),
        ),
        SelfAction::PythonPath { path } => SelfActionModel::PythonPath(path@),
        SelfAction::Remove { remove } => SelfActionModel::Remove(remove),
        SelfAction::Restore { plan } => SelfActionModel::Restore(plan@),
        SelfAction::Update { allowed, pre, restore, plan } => SelfActionModel::Update(
            allowed,
            pre,
            restore,
            plan@,
        ),
    }
}

/// The management command.
pub struct Cli {
    /// Which subcommand runs.
    pub command: Commands,
}

/// The management subcommands.
pub enum Commands {
    /// Manage the cache.
    Cache(crate::commands::self_cmd::cache::cli::Cli),
    /// Display metadata.
    Metadata(crate::commands::self_cmd::metadata::Cli),
    /// Directly invoke the installer.
    Pip(crate::commands::self_cmd::pip::Cli),
    /// Directly invoke the interpreter.
    Python(crate::commands::self_cmd::python::Cli),
    /// Show the interpreter path.
    PythonPath(crate::commands::self_cmd::python_path::Cli),
    /// Remove the installation.
    Remove(crate::commands::self_cmd::remove::Cli),
    /// Restore the installation.
    Restore(crate::commands::self_cmd::restore::Cli),
    /// Install the latest version.
    Update(crate::commands::self_cmd::update::Cli),
}

/// What the dispatched management subcommand decides.
pub open spec fn spec_self_action(
    cli: Cli,
    cfg: Config,
    w: WorldView,
    renv: RuntimeEnv,
) -> SelfActionModel {
    match cli.command {
        Commands::Cache(c) => SelfActionModel::Cache(
            crate::commands::self_cmd::cache::cli::spec_cache_cli_action(c, cfg, w),
        ),
        Commands::Metadata(_c) => SelfActionModel::Metadata(w.install_dir_present),
        Commands::Pip(c) => SelfActionModel::Pip(
            spec_pip_passthrough_plan(cfg, w),
            spec_pip_program(cfg),
            spec_pip_base_args(cfg) + c.args.deep_view(),
            spec_env_overlay(cfg, renv),
        ),
        Commands::Python(c) => SelfActionModel::Python(
            spec_ensure_ready_plan(cfg, w),
            spec_python_path(cfg),
            seq![cfg.python_isolation_flag@] + c.args.deep_view(),
            spec_env_overlay(cfg, renv),
        ),
        Commands::PythonPath(_c) => SelfActionModel::PythonPath(spec_python_path(cfg)),
        Commands::Remove(_c) => SelfActionModel::Remove(w.install_dir_present),
        Commands::Restore(_c) => SelfActionModel::Restore(spec_restore_plan(cfg, w)),
        Commands::Update(c) => SelfActionModel::Update(
            spec_update_allowed(cfg),
            c.pre,
            c.restore,
            if spec_update_allowed(cfg) {
                spec_update_plan(cfg, w, c.restore)
            } else {
                Seq::<Step>::empty()
            },
        ),
    }
}

impl Cli {
    /// Dispatches to the chosen subcommand.
    pub fn exec(self, cfg: &Config, w: &WorldView, renv: &RuntimeEnv) -> (r: SelfAction)
        ensures
            self_action_model(r) == spec_self_action(self, *cfg, *w, *renv),
    {
        match self.command {
            Commands::Cache(c) => SelfAction::Cache(c.exec(cfg, w)),
            Commands::Metadata(c) => SelfAction::Metadata { inspect: c.exec(w) },
            Commands::Pip(c) => {
                let (plan, command) = c.exec(cfg, w, renv);
                SelfAction::Pip { plan, command }
            },
            Commands::Python(c) => {
                let (plan, command) = c.exec(cfg, w, renv);
                SelfAction::Python { plan, command }
            },
            Commands::PythonPath(c) => SelfAction::PythonPath { path: c.exec(cfg) },
            Commands::Remove(c) => SelfAction::Remove { remove: c.exec(w) },
            Commands::Restore(c) => SelfAction::Restore { plan: c.exec(cfg, w) },
            Commands::Update(c) => {
                let pre = c.pre;
                let restore = c.restore;
                let (allowed, plan) = c.exec(cfg, w);
                SelfAction::Update { allowed, pre, restore, plan }
            },
        }
    }
}

} // verus!
