//! The materialization engine: given the configuration and what is
//! observably on disk, it decides — as plain data — exactly which
//! steps turn "no installation" into "ready installation", which
//! subprocess invocations those steps run, and what is rolled back
//! when one of them fails.  The unverified shell performs the steps
//! literally, serialized by the installation lock.

use vstd::prelude::*;

use crate::app::{external_pip_zipapp, install_dir, managed_uv, python_path, pythonw_path, spec_external_pip_zipapp, spec_exec_notebook_path, spec_exec_script_path, spec_install_dir, spec_managed_uv, spec_pythonw_path, spec_python_path, spec_unpacked_distribution, spec_uv_as_installer, exec_notebook_path, exec_script_path, unpacked_distribution, uv_as_installer};
use crate::config::Config;
use crate::process::{spec_forwarded_exit_code, CommandSpec, RuntimeEnv};
use crate::strutil::{contains_seq, contains_sub, ends_with, ends_with_seq, joined, keep_nonempty, path_join, parent_dir, spec_parent_dir, split_nonempty, split_sep, str_eq, trim_end_all, trim_end_all_seq};

verus! {

/// What the engine can observe of the shared on-disk state before it
/// plans: bare existence checks, nothing deeper.  An existing
/// installation directory is taken as ready; only deletion (by
/// `restore`, `remove` or failure cleanup) resets it.
#[derive(Clone, Copy, PartialEq, Eq, Structural, Debug)]
pub struct WorldView {
    /// The installation directory exists.
    pub install_dir_present: bool,
    /// The runtime archive is published in the cache.
    pub dist_archive_cached: bool,
    /// The shared unpacked runtime exists (lightweight policy).
    pub shared_unpacked_present: bool,
    /// The fast-installer binary is published in its cache.
    pub uv_binary_present: bool,
    /// The external installer zipapp is published in its cache.
    pub pip_zipapp_present: bool,
    /// The application payload has been installed.
    pub payload_installed: bool,
}

/// One step of the materialization state machine.  Each step stands
/// for one effectful operation the shell performs; the commands that
/// the subprocess steps run are fixed by the builder functions below.
#[derive(Clone, Copy, PartialEq, Eq, Structural, Debug)]
pub enum Step {
    /// Publish the runtime archive into the cache, from the embedded
    /// bytes or over the network, staging through a scratch file.
    FetchDistribution,
    /// Unpack the archive into the installation directory itself
    /// (full-isolation policy).
    UnpackInstallDir,
    /// Run the base-installer bootstrap inside the fresh installation.
    EnsureBasePipInstall,
    /// Unpack the archive into the shared runtime directory
    /// (lightweight policy).
    UnpackShared,
    /// Publish the fast-installer binary into its cache, under its
    /// artifact lock.
    EnsureUv,
    /// Run the base-installer bootstrap inside the shared runtime.
    EnsureBasePipShared,
    /// Upgrade the environment-creation tool inside the shared
    /// runtime.
    UpgradeVirtualenv,
    /// Create the per-installation environment from the shared
    /// runtime.
    CreateEnv,
    /// Publish the external installer zipapp into its cache, under
    /// its artifact lock.
    EnsureExternalPip,
    /// Run the payload install subprocess.
    InstallProject,
    /// Run the payload upgrade subprocess.
    UpdateProject,
    /// Delete the installation directory.
    RemoveInstallDir,
}

/// The effect of one successful step on the observable world.
pub open spec fn step_effect(w: WorldView, s: Step) -> WorldView {
    match s {
        Step::FetchDistribution => WorldView { dist_archive_cached: true, ..w },
        Step::UnpackInstallDir => WorldView { install_dir_present: true, ..w },
        Step::UnpackShared => WorldView { shared_unpacked_present: true, ..w },
        Step::EnsureUv => WorldView { uv_binary_present: true, ..w },
        Step::EnsureExternalPip => WorldView { pip_zipapp_present: true, ..w },
        Step::CreateEnv => WorldView { install_dir_present: true, ..w },
        Step::InstallProject => WorldView { payload_installed: true, ..w },
        Step::UpdateProject => WorldView { payload_installed: true, ..w },
        Step::EnsureBasePipInstall => w,
        Step::EnsureBasePipShared => w,
        Step::UpgradeVirtualenv => w,
        Step::RemoveInstallDir => WorldView {
            install_dir_present: false,
            payload_installed: false,
            ..w
        },
    }
}

/// The effect of running a plan to completion.
pub open spec fn apply_plan(w: WorldView, plan: Seq<Step>) -> WorldView
    decreases plan.len(),
{
    if plan.len() == 0 {
        w
    } else {
        apply_plan(step_effect(w, plan[0]), plan.skip(1))
    }
}

/// Applies one step's effect to an observed world.
pub fn apply_step_exec(w: &WorldView, s: Step) -> (r: WorldView)
    ensures
        r == step_effect(*w, s),
{
    let mut r = *w;
    match s {
        Step::FetchDistribution => {
            r.dist_archive_cached = true;
        },
        Step::UnpackInstallDir => {
            r.install_dir_present = true;
        },
        Step::UnpackShared => {
            r.shared_unpacked_present = true;
        },
        Step::EnsureUv => {
            r.uv_binary_present = true;
        },
        Step::EnsureExternalPip => {
            r.pip_zipapp_present = true;
        },
        Step::CreateEnv => {
            r.install_dir_present = true;
        },
        Step::InstallProject => {
            r.payload_installed = true;
        },
        Step::UpdateProject => {
            r.payload_installed = true;
        },
        Step::EnsureBasePipInstall => {
        },
        Step::EnsureBasePipShared => {
        },
        Step::UpgradeVirtualenv => {
        },
        Step::RemoveInstallDir => {
            r.install_dir_present = false;
            r.payload_installed = false;
        },
    }
    r
}

/// Applies a whole plan's effect to an observed world.
pub fn apply_plan_exec(w: &WorldView, plan: &Vec<Step>) -> (r: WorldView)
    ensures
        r == apply_plan(*w, plan@),
{
    let n = plan.len();
    let mut cur = *w;
    let mut i: usize = 0;
    proof {
        lemma_apply_plan_concat_all();
        assert(plan@.skip(0) =~= plan@);
    }
    while i < n
        invariant
            i <= n,
            n == plan@.len(),
            apply_plan(cur, plan@.skip(i as int)) == apply_plan(*w, plan@),
        decreases n - i,
    {
        proof {
            assert(plan@.skip(i as int)[0] == plan@[i as int]);
            assert(plan@.skip(i as int).skip(1) =~= plan@.skip(i + 1));
        }
        cur = apply_step_exec(&cur, plan[i]);
        i += 1;
    }
    proof {
        assert(plan@.skip(n as int) =~= Seq::<Step>::empty());
    }
    cur
}

/// Running two plans in sequence equals running their concatenation.
pub proof fn lemma_apply_plan_concat(w: WorldView, a: Seq<Step>, b: Seq<Step>)
    ensures
        apply_plan(w, a + b) == apply_plan(apply_plan(w, a), b),
    decreases a.len(),
{
    if a.len() == 0 {
        assert(a + b =~= b);
    } else {
        assert((a + b)[0] == a[0]);
        assert((a + b).skip(1) =~= a.skip(1) + b);
        lemma_apply_plan_concat(step_effect(w, a[0]), a.skip(1), b);
    }
}

proof fn lemma_apply_plan_concat_all()
    ensures
        forall|w: WorldView, a: Seq<Step>, b: Seq<Step>|
            #[trigger] apply_plan(w, a + b) == apply_plan(apply_plan(w, a), b),
{
    assert forall|w: WorldView, a: Seq<Step>, b: Seq<Step>|
        #[trigger] apply_plan(w, a + b) == apply_plan(apply_plan(w, a), b) by {
        lemma_apply_plan_concat(w, a, b);
    }
}

/// A plan without the removal step never unmakes an existing
/// installation directory.
pub proof fn lemma_no_remove_preserves(w: WorldView, p: Seq<Step>)
    requires
        w.install_dir_present,
        forall|i: int| 0 <= i < p.len() ==> p[i] != Step::RemoveInstallDir,
    ensures
        apply_plan(w, p).install_dir_present,
    decreases p.len(),
{
    if p.len() > 0 {
        assert(p[0] != Step::RemoveInstallDir);
        lemma_no_remove_preserves(step_effect(w, p[0]), p.skip(1));
    }
}

/// Whether the distribution needs its base installer bootstrapped:
/// only when it neither ships one nor is the fast installer in play.
pub open spec fn spec_needs_base_pip(cfg: Config) -> bool {
    !cfg.distribution_pip_available && !cfg.uv_enabled
}

/// The steps that materialize the runtime: publish the archive if it
/// is not cached, then either unpack it straight into the
/// installation (full isolation) or unpack it once into the shared
/// runtime and derive a per-installation environment from it.
pub open spec fn spec_materialize_plan(cfg: Config, w: WorldView) -> Seq<Step> {
    (if w.dist_archive_cached {
        Seq::<Step>::empty()
    } else {
        seq![Step::FetchDistribution]
    }) + (if cfg.full_isolation {
        seq![Step::UnpackInstallDir] + (if !cfg.skip_install && spec_needs_base_pip(cfg) {
            seq![Step::EnsureBasePipInstall]
        } else {
            Seq::<Step>::empty()
        })
    } else {
        (if w.shared_unpacked_present {
            Seq::<Step>::empty()
        } else {
            seq![Step::UnpackShared]
        }) + (if cfg.uv_enabled {
            if w.uv_binary_present {
                Seq::<Step>::empty()
            } else {
                seq![Step::EnsureUv]
            }
        } else if cfg.upgrade_virtualenv {
            (if spec_needs_base_pip(cfg) {
                seq![Step::EnsureBasePipShared]
            } else {
                Seq::<Step>::empty()
            }) + seq![Step::UpgradeVirtualenv]
        } else {
            Seq::<Step>::empty()
        }) + seq![Step::CreateEnv]
    })
}

/// The bootstrap steps that make the chosen payload installer
/// available, skipped for whatever is already published.
pub open spec fn spec_installer_plan(cfg: Config, w: WorldView) -> Seq<Step> {
    if spec_uv_as_installer(cfg) {
        if w.uv_binary_present {
            Seq::<Step>::empty()
        } else {
            seq![Step::EnsureUv]
        }
    } else if cfg.pip_external {
        if w.pip_zipapp_present {
            Seq::<Step>::empty()
        } else {
            seq![Step::EnsureExternalPip]
        }
    } else {
        Seq::<Step>::empty()
    }
}

/// The full ready check: nothing at all when the installation
/// directory exists; otherwise materialize the runtime and, unless
/// installation is configured away, install the payload.
pub open spec fn spec_ensure_ready_plan(cfg: Config, w: WorldView) -> Seq<Step> {
    if w.install_dir_present {
        Seq::<Step>::empty()
    } else {
        let m = spec_materialize_plan(cfg, w);
        m + (if cfg.skip_install {
            Seq::<Step>::empty()
        } else {
            spec_installer_plan(cfg, apply_plan(w, m)) + seq![Step::InstallProject]
        })
    }
}

/// Plans the materialization of the runtime for the observed world.
pub fn materialize(cfg: &Config, w: &WorldView) -> (r: Vec<Step>)
    ensures
        r@ == spec_materialize_plan(*cfg, *w),
{
    let mut v: Vec<Step> = Vec::new();
    if !w.dist_archive_cached {
        v.push(Step::FetchDistribution);
    }
    if cfg.full_isolation {
        v.push(Step::UnpackInstallDir);
        if !cfg.skip_install && !cfg.distribution_pip_available && !cfg.uv_enabled {
            v.push(Step::EnsureBasePipInstall);
        }
    } else {
        if !w.shared_unpacked_present {
            v.push(Step::UnpackShared);
        }
        if cfg.uv_enabled {
            if !w.uv_binary_present {
                v.push(Step::EnsureUv);
            }
        } else if cfg.upgrade_virtualenv {
            if !cfg.distribution_pip_available {
                v.push(Step::EnsureBasePipShared);
            }
            v.push(Step::UpgradeVirtualenv);
        }
        v.push(Step::CreateEnv);
    }
    proof {
        assert(v@ =~= spec_materialize_plan(*cfg, *w));
    }
    v
}

/// Plans the bootstrap of the configured payload installer.
pub fn ensure_installer_available(cfg: &Config, w: &WorldView) -> (r: Vec<Step>)
    ensures
        r@ == spec_installer_plan(*cfg, *w),
{
    let mut v: Vec<Step> = Vec::new();
    if uv_as_installer(cfg) {
        if !w.uv_binary_present {
            v.push(Step::EnsureUv);
        }
    } else if cfg.pip_external {
        if !w.pip_zipapp_present {
            v.push(Step::EnsureExternalPip);
        }
    }
    proof {
        assert(v@ =~= spec_installer_plan(*cfg, *w));
    }
    v
}

/// Plans the whole ready check for the observed world.  Run under the
/// installation lock; an existing installation directory means there
/// is nothing to do.
pub fn ensure_ready(cfg: &Config, w: &WorldView) -> (r: Vec<Step>)
    ensures
        r@ == spec_ensure_ready_plan(*cfg, *w),
{
    let mut v: Vec<Step> = Vec::new();
    if w.install_dir_present {
        proof {
            assert(v@ =~= spec_ensure_ready_plan(*cfg, *w));
        }
        return v;
    }
    let m = materialize(cfg, w);
    let after = apply_plan_exec(w, &m);
    v = m;
    if !cfg.skip_install {
        let inst = ensure_installer_available(cfg, &after);
        let mut i: usize = 0;
        let n = inst.len();
        while i < n
            invariant
                i <= n,
                n == inst@.len(),
                v@ == spec_materialize_plan(*cfg, *w) + inst@.take(i as int),
            decreases n - i,
        {
            v.push(inst[i]);
            proof {
                assert(spec_materialize_plan(*cfg, *w) + inst@.take(i as int) + seq![inst@[i as int]]
                    =~= spec_materialize_plan(*cfg, *w) + inst@.take(i + 1));
            }
            i += 1;
        }
        proof {
            assert(inst@.take(n as int) =~= inst@);
        }
        v.push(Step::InstallProject);
    }
    proof {
        assert(v@ =~= spec_ensure_ready_plan(*cfg, *w));
    }
    v
}

/// The ready check never deletes anything: a routine launch cannot
/// unmake an existing installation or cache entry.
pub proof fn lemma_ensure_ready_never_removes(cfg: Config, w: WorldView)
    ensures
        forall|i: int|
            0 <= i < spec_ensure_ready_plan(cfg, w).len() ==> spec_ensure_ready_plan(cfg, w)[i]
                != Step::RemoveInstallDir,
{
    let p = spec_ensure_ready_plan(cfg, w);
    if !w.install_dir_present {
        let m = spec_materialize_plan(cfg, w);
        assert forall|i: int| 0 <= i < p.len() implies p[i] != Step::RemoveInstallDir by {
            if i < m.len() {
                assert(p[i] == m[i]);
                lemma_materialize_plan_never_removes(cfg, w, i);
            } else {
                let inst = spec_installer_plan(cfg, apply_plan(w, m));
                if i - m.len() < inst.len() {
                    assert(p[i] == inst[i - m.len()]);
                } else {
                    assert(p[i] == Step::InstallProject);
                }
            }
        }
    }
}

proof fn lemma_materialize_plan_never_removes(cfg: Config, w: WorldView, i: int)
    requires
        0 <= i < spec_materialize_plan(cfg, w).len(),
    ensures
        spec_materialize_plan(cfg, w)[i] != Step::RemoveInstallDir,
{
}

/// Materializing always ends with the installation directory present.
pub proof fn lemma_materialize_makes_present(cfg: Config, w: WorldView)
    ensures
        apply_plan(w, spec_materialize_plan(cfg, w)).install_dir_present,
{
    lemma_apply_plan_concat_all();
    let f = if w.dist_archive_cached {
        Seq::<Step>::empty()
    } else {
        seq![Step::FetchDistribution]
    };
    let w1 = apply_plan(w, f);
    if cfg.full_isolation {
        let u = seq![Step::UnpackInstallDir];
        let b = if !cfg.skip_install && spec_needs_base_pip(cfg) {
            seq![Step::EnsureBasePipInstall]
        } else {
            Seq::<Step>::empty()
        };
        assert(spec_materialize_plan(cfg, w) == f + (u + b));
        assert(u.skip(1) =~= Seq::<Step>::empty());
        assert(u[0] == Step::UnpackInstallDir);
        assert(apply_plan(step_effect(w1, Step::UnpackInstallDir), Seq::<Step>::empty())
            == step_effect(w1, Step::UnpackInstallDir));
        assert(apply_plan(w1, u) == step_effect(w1, Step::UnpackInstallDir));
        lemma_no_remove_preserves(apply_plan(w1, u), b);
    } else {
        let s = if w.shared_unpacked_present {
            Seq::<Step>::empty()
        } else {
            seq![Step::UnpackShared]
        };
        let t = if cfg.uv_enabled {
            if w.uv_binary_present {
                Seq::<Step>::empty()
            } else {
                seq![Step::EnsureUv]
            }
        } else if cfg.upgrade_virtualenv {
            (if spec_needs_base_pip(cfg) {
                seq![Step::EnsureBasePipShared]
            } else {
                Seq::<Step>::empty()
            }) + seq![Step::UpgradeVirtualenv]
        } else {
            Seq::<Step>::empty()
        };
        let c = seq![Step::CreateEnv];
        assert(spec_materialize_plan(cfg, w) == f + (s + t + c));
        let w2 = apply_plan(apply_plan(w1, s), t);
        assert(c.skip(1) =~= Seq::<Step>::empty());
        assert(c[0] == Step::CreateEnv);
        assert(apply_plan(step_effect(w2, Step::CreateEnv), Seq::<Step>::empty())
            == step_effect(w2, Step::CreateEnv));
        assert(apply_plan(w2, c) == step_effect(w2, Step::CreateEnv));
        assert(apply_plan(w, f + (s + t + c)) == apply_plan(w2, c));
    }
}

/// The installer bootstrap and payload install never remove the
/// installation directory.
pub proof fn lemma_install_part_preserves(cfg: Config, w: WorldView, wm: WorldView)
    requires
        wm.install_dir_present,
    ensures
        apply_plan(wm, spec_installer_plan(cfg, w) + seq![Step::InstallProject]).install_dir_present,
{
    let p = spec_installer_plan(cfg, w) + seq![Step::InstallProject];
    assert forall|i: int| 0 <= i < p.len() implies p[i] != Step::RemoveInstallDir by {
        if i < spec_installer_plan(cfg, w).len() {
            assert(p[i] == spec_installer_plan(cfg, w)[i]);
        } else {
            assert(p[i] == Step::InstallProject);
        }
    }
    lemma_no_remove_preserves(wm, p);
}

/// The ready check leaves the installation directory present.
pub proof fn lemma_ensure_ready_makes_present(cfg: Config, w: WorldView)
    ensures
        apply_plan(w, spec_ensure_ready_plan(cfg, w)).install_dir_present,
{
    lemma_apply_plan_concat_all();
    if !w.install_dir_present {
        let m = spec_materialize_plan(cfg, w);
        lemma_materialize_makes_present(cfg, w);
        if cfg.skip_install {
            assert(spec_ensure_ready_plan(cfg, w) == m + Seq::<Step>::empty());
        } else {
            lemma_install_part_preserves(cfg, apply_plan(w, m), apply_plan(w, m));
        }
    }
}

/// Law: the ready check is idempotent — running it once more, with no
/// intervening deletion, plans no work at all: no re-fetch, no
/// re-unpack, no re-install.
pub proof fn lemma_ensure_ready_idempotent(cfg: Config, w: WorldView)
    ensures
        spec_ensure_ready_plan(cfg, apply_plan(w, spec_ensure_ready_plan(cfg, w)))
            == Seq::<Step>::empty(),
{
    lemma_ensure_ready_makes_present(cfg, w);
}

/// One process's turn under the installation lock: nothing when the
/// installation exists, else the full ready plan.  The second
/// component records whether this process did the work.
pub open spec fn crit_section(cfg: Config, w: WorldView) -> (WorldView, bool) {
    if w.install_dir_present {
        (w, false)
    } else {
        (apply_plan(w, spec_ensure_ready_plan(cfg, w)), true)
    }
}

/// `n` processes racing for the same installation, serialized by the
/// lock: the resulting world and how many of them did the work.
pub open spec fn race(cfg: Config, w: WorldView, n: nat) -> (WorldView, nat)
    decreases n,
{
    if n == 0 {
        (w, 0)
    } else {
        let once = crit_section(cfg, w);
        let rest = race(cfg, once.0, (n - 1) as nat);
        (rest.0, rest.1 + (if once.1 {
            1nat
        } else {
            0nat
        }))
    }
}

proof fn lemma_race_when_present(cfg: Config, w: WorldView, n: nat)
    requires
        w.install_dir_present,
    ensures
        race(cfg, w, n) == (w, 0nat),
    decreases n,
{
    if n > 0 {
        lemma_race_when_present(cfg, w, (n - 1) as nat);
    }
}

/// Law: however many processes race to materialize the same
/// installation for the first time, exactly one performs the
/// unpack/provision/install sequence, and every one of them ends with
/// a ready installation in view.
pub proof fn lemma_race_once(cfg: Config, w: WorldView, n: nat)
    requires
        !w.install_dir_present,
        n >= 1,
    ensures
        race(cfg, w, n).1 == 1,
        race(cfg, w, n).0.install_dir_present,
{
    lemma_ensure_ready_makes_present(cfg, w);
    let w1 = apply_plan(w, spec_ensure_ready_plan(cfg, w));
    lemma_race_when_present(cfg, w1, (n - 1) as nat);
}

/// The separator between entries of the search-path variable.
pub open spec fn spec_path_sep(cfg: Config) -> Seq<char> {
    if cfg.windows {
        ";"@
    } else {
        ":"@
    }
}

/// The directories of the installation that are put in front of the
/// search path: the interpreter's directory, and on a windows-style
/// full-isolation installation also its scripts directory.
pub open spec fn spec_exe_paths(cfg: Config) -> Seq<char> {
    let dir = spec_parent_dir(spec_python_path(cfg));
    if cfg.full_isolation && cfg.windows {
        dir + spec_path_sep(cfg) + joined(dir, "Scripts"@)
    } else {
        dir
    }
}

/// The value of the search-path variable for subprocesses: the
/// installation's directories in front of whatever was inherited.
pub open spec fn spec_path_value(cfg: Config, renv: RuntimeEnv) -> Seq<char> {
    match renv.path_var {
        Some(p) => spec_exe_paths(cfg) + spec_path_sep(cfg) + p@,
        None => spec_exe_paths(cfg),
    }
}

/// The value of the launcher marker variable: a fixed sentinel, or the
/// launcher's own path when that policy is configured.
pub open spec fn spec_marker_value(cfg: Config, renv: RuntimeEnv) -> Seq<char> {
    if !cfg.pass_location {
        "1"@
    } else {
        match renv.current_exe {
            Some(p) => p@,
            None => Seq::<char>::empty(),
        }
    }
}

/// The whole environment overlay applied to every subprocess: the
/// search path, the environment marker of the isolation policy, the
/// launcher marker, and the configured command name.
pub open spec fn spec_env_overlay(cfg: Config, renv: RuntimeEnv) -> Seq<(Seq<char>, Seq<char>)> {
    seq![("PATH"@, spec_path_value(cfg, renv))] + (if !cfg.full_isolation {
        seq![("VIRTUAL_ENV"@, spec_parent_dir(spec_parent_dir(spec_python_path(cfg))))]
    } else if spec_uv_as_installer(cfg) {
        seq![("UV_SYSTEM_PYTHON"@, "true"@)]
    } else {
        Seq::<(Seq<char>, Seq<char>)>::empty()
    }) + seq![("PYAPP"@, spec_marker_value(cfg, renv))] + (if cfg.exposed_command@.len() > 0 {
        seq![("PYAPP_COMMAND_NAME"@, cfg.exposed_command@)]
    } else {
        Seq::<(Seq<char>, Seq<char>)>::empty()
    })
}

/// Applies the standard environment overlay to a command.
pub fn apply_env_vars(cfg: &Config, renv: &RuntimeEnv, cmd: &mut CommandSpec)
    ensures
        final(cmd).program == old(cmd).program,
        final(cmd).args == old(cmd).args,
        final(cmd).env_view() == old(cmd).env_view() + spec_env_overlay(*cfg, *renv),
{
    let py = python_path(cfg);
    let dir = parent_dir(py.as_str());
    let sep: &str = if cfg.windows { ";" } else { ":" };
    let mut exe_paths: String;
    if cfg.full_isolation && cfg.windows {
        let scripts = path_join(dir.as_str(), "Scripts");
        exe_paths = dir.clone();
        exe_paths.append(sep);
        exe_paths.append(scripts.as_str());
    } else {
        exe_paths = dir.clone();
    }
    let mut path_value: String = exe_paths;
    match &renv.path_var {
        Some(p) => {
            path_value.append(sep);
            path_value.append(p.as_str());
        },
        None => {},
    }
    cmd.env("PATH".to_owned(), path_value);
    if !cfg.full_isolation {
        let venv = parent_dir(dir.as_str());
        cmd.env("VIRTUAL_ENV".to_owned(), venv);
    } else if uv_as_installer(cfg) {
        cmd.env("UV_SYSTEM_PYTHON".to_owned(), "true".to_owned());
    }
    let marker: String;
    if !cfg.pass_location {
        marker = "1".to_owned();
    } else {
        match &renv.current_exe {
            Some(p) => {
                marker = p.clone();
            },
            None => {
                marker = String::new();
            },
        }
    }
    cmd.env("PYAPP".to_owned(), marker);
    if cfg.exposed_command.as_str().unicode_len() > 0 {
        cmd.env("PYAPP_COMMAND_NAME".to_owned(), cfg.exposed_command.clone());
    }
    proof {
        assert(final(cmd).env_view() =~= old(cmd).env_view() + spec_env_overlay(*cfg, *renv));
    }
}

/// An interpreter invocation: the given interpreter, isolated from
/// the user's environment, with the standard overlay applied.
pub fn python_command(cfg: &Config, renv: &RuntimeEnv, python: String) -> (r: CommandSpec)
    ensures
        r.program@ == python@,
        r.args_view() == seq![cfg.python_isolation_flag@],
        r.env_view() == spec_env_overlay(*cfg, *renv),
{
    let mut c = CommandSpec::new(python);
    apply_env_vars(cfg, renv, &mut c);
    c.arg(cfg.python_isolation_flag.clone());
    proof {
        assert(c.args_view() =~= seq![cfg.python_isolation_flag@]);
        assert(c.env_view() =~= spec_env_overlay(*cfg, *renv));
    }
    c
}

/// A fast-installer invocation with the standard overlay applied.
pub fn uv_command(cfg: &Config, renv: &RuntimeEnv) -> (r: CommandSpec)
    ensures
        r.program@ == spec_managed_uv(*cfg),
        r.args_view() == Seq::<Seq<char>>::empty(),
        r.env_view() == spec_env_overlay(*cfg, *renv),
{
    let mut c = CommandSpec::new(managed_uv(cfg));
    apply_env_vars(cfg, renv, &mut c);
    proof {
        assert(c.env_view() =~= spec_env_overlay(*cfg, *renv));
    }
    c
}

/// The program that payload-installer invocations run.
pub open spec fn spec_pip_program(cfg: Config) -> Seq<char> {
    if spec_uv_as_installer(cfg) {
        spec_managed_uv(cfg)
    } else {
        spec_python_path(cfg)
    }
}

/// The leading arguments of every payload-installer invocation.
pub open spec fn spec_pip_base_args(cfg: Config) -> Seq<Seq<char>> {
    if spec_uv_as_installer(cfg) {
        seq!["pip"@]
    } else {
        seq![cfg.python_isolation_flag@] + (if cfg.pip_external {
            seq![spec_external_pip_zipapp(cfg)]
        } else {
            seq!["-m"@, "pip"@]
        })
    }
}

/// The base command of the chosen payload installer: the fast
/// installer, the external zipapp, or the built-in module.
pub fn pip_base_command(cfg: &Config, renv: &RuntimeEnv) -> (r: CommandSpec)
    ensures
        r.program@ == spec_pip_program(*cfg),
        r.args_view() == spec_pip_base_args(*cfg),
        r.env_view() == spec_env_overlay(*cfg, *renv),
{
    if uv_as_installer(cfg) {
        let mut c = uv_command(cfg, renv);
        c.arg("pip".to_owned());
        proof {
            assert(c.args_view() =~= spec_pip_base_args(*cfg));
        }
        c
    } else {
        let mut c = python_command(cfg, renv, python_path(cfg));
        if cfg.pip_external {
            c.arg(external_pip_zipapp(cfg));
        } else {
            c.arg("-m".to_owned());
            c.arg("pip".to_owned());
        }
        proof {
            assert(c.args_view() =~= spec_pip_base_args(*cfg));
        }
        c
    }
}

/// The arguments of an install invocation, before the payload
/// specifier: the base arguments, the install verb with its safety
/// flags, and the configured extra arguments.
pub open spec fn spec_pip_install_args(cfg: Config) -> Seq<Seq<char>> {
    spec_pip_base_args(cfg) + (if spec_uv_as_installer(cfg) {
        seq!["install"@]
    } else {
        seq!["install"@, "--disable-pip-version-check"@, "--no-warn-script-location"@]
            + (if !cfg.pip_allow_config {
            seq!["--isolated"@]
        } else {
            Seq::<Seq<char>>::empty()
        })
    }) + keep_nonempty(split_sep(cfg.pip_extra_args@, ' '))
}

/// The install command of the chosen payload installer.
pub fn pip_install_command(cfg: &Config, renv: &RuntimeEnv) -> (r: CommandSpec)
    ensures
        r.program@ == spec_pip_program(*cfg),
        r.args_view() == spec_pip_install_args(*cfg),
        r.env_view() == spec_env_overlay(*cfg, *renv),
{
    let mut c = pip_base_command(cfg, renv);
    if uv_as_installer(cfg) {
        c.arg("install".to_owned());
    } else {
        c.arg("install".to_owned());
        c.arg("--disable-pip-version-check".to_owned());
        c.arg("--no-warn-script-location".to_owned());
        if !cfg.pip_allow_config {
            c.arg("--isolated".to_owned());
        }
    }
    let ghost fixed = c.args_view();
    let extra = split_nonempty(cfg.pip_extra_args.as_str(), ' ');
    let n = extra.len();
    let mut i: usize = 0;
    while i < n
        invariant
            i <= n,
            n == extra@.len(),
            c.args_view() == fixed + extra.deep_view().take(i as int),
            c.env_view() == spec_env_overlay(*cfg, *renv),
            c.program@ == spec_pip_program(*cfg),
            fixed + extra.deep_view() == spec_pip_install_args(*cfg),
        decreases n - i,
    {
        let t = extra[i].clone();
        proof {
            assert(extra.deep_view()[i as int] == extra@[i as int]@);
        }
        c.arg(t);
        proof {
            assert(fixed + extra.deep_view().take(i as int) + seq![extra.deep_view()[i as int]]
                =~= fixed + extra.deep_view().take(i + 1));
        }
        i += 1;
    }
    proof {
        assert(extra.deep_view().take(n as int) =~= extra.deep_view());
        assert(c.args_view() =~= spec_pip_install_args(*cfg));
    }
    c
}

/// The interpreter inside the shared unpacked runtime.
pub open spec fn spec_shared_python(cfg: Config) -> Seq<char> {
    joined(spec_unpacked_distribution(cfg), cfg.distribution_python_path@)
}

/// Path of the interpreter inside the shared unpacked runtime.
pub fn shared_python(cfg: &Config) -> (r: String)
    ensures
        r@ == spec_shared_python(*cfg),
{
    let base = unpacked_distribution(cfg);
    path_join(base.as_str(), cfg.distribution_python_path.as_str())
}

/// The environment-creation command of the lightweight policy: the
/// fast installer's venv mode, the upgraded environment tool, or the
/// built-in venv module — always targeting the installation
/// directory.
pub open spec fn spec_env_create_program(cfg: Config) -> Seq<char> {
    if cfg.uv_enabled {
        spec_managed_uv(cfg)
    } else {
        spec_shared_python(cfg)
    }
}

/// The arguments of the environment-creation command.
pub open spec fn spec_env_create_args(cfg: Config) -> Seq<Seq<char>> {
    (if cfg.uv_enabled {
        seq!["venv"@, "--python"@, spec_shared_python(cfg)] + (if cfg.uv_only_bootstrap {
            seq!["--seed"@]
        } else {
            Seq::<Seq<char>>::empty()
        })
    } else if cfg.upgrade_virtualenv {
        seq![cfg.python_isolation_flag@, "-m"@, "virtualenv"@] + (if cfg.pip_external {
            seq!["--no-pip"@]
        } else {
            Seq::<Seq<char>>::empty()
        })
    } else {
        seq![cfg.python_isolation_flag@, "-m"@, "venv"@] + (if cfg.pip_external {
            seq!["--without-pip"@]
        } else {
            Seq::<Seq<char>>::empty()
        })
    }) + seq![spec_install_dir(cfg)]
}

/// Builds the environment-creation command of the lightweight policy.
pub fn env_create_command(cfg: &Config, renv: &RuntimeEnv) -> (r: CommandSpec)
    ensures
        r.program@ == spec_env_create_program(*cfg),
        r.args_view() == spec_env_create_args(*cfg),
        r.env_view() == spec_env_overlay(*cfg, *renv),
{
    let mut c: CommandSpec;
    if cfg.uv_enabled {
        c = uv_command(cfg, renv);
        c.arg("venv".to_owned());
        c.arg("--python".to_owned());
        c.arg(shared_python(cfg));
        if cfg.uv_only_bootstrap {
            c.arg("--seed".to_owned());
        }
    } else if cfg.upgrade_virtualenv {
        c = python_command(cfg, renv, shared_python(cfg));
        c.arg("-m".to_owned());
        c.arg("virtualenv".to_owned());
        if cfg.pip_external {
            c.arg("--no-pip".to_owned());
        }
    } else {
        c = python_command(cfg, renv, shared_python(cfg));
        c.arg("-m".to_owned());
        c.arg("venv".to_owned());
        if cfg.pip_external {
            c.arg("--without-pip".to_owned());
        }
    }
    c.arg(install_dir(cfg));
    proof {
        assert(c.args_view() =~= spec_env_create_args(*cfg));
    }
    c
}

/// The command that upgrades the environment-creation tool inside
/// the shared runtime before it is used.
pub fn upgrade_virtualenv_command(cfg: &Config, renv: &RuntimeEnv) -> (r: CommandSpec)
    ensures
        r.program@ == spec_shared_python(*cfg),
        r.args_view() == seq![
            cfg.python_isolation_flag@,
            "-m"@,
            "pip"@,
            "install"@,
            "--upgrade"@,
            "--isolated"@,
            "--disable-pip-version-check"@,
            "--no-warn-script-location"@,
            "virtualenv"@,
        ],
        r.env_view() == spec_env_overlay(*cfg, *renv),
{
    let mut c = python_command(cfg, renv, shared_python(cfg));
    c.arg("-m".to_owned());
    c.arg("pip".to_owned());
    c.arg("install".to_owned());
    c.arg("--upgrade".to_owned());
    c.arg("--isolated".to_owned());
    c.arg("--disable-pip-version-check".to_owned());
    c.arg("--no-warn-script-location".to_owned());
    c.arg("virtualenv".to_owned());
    proof {
        assert(c.args_view() =~= seq![
            cfg.python_isolation_flag@,
            "-m"@,
            "pip"@,
            "install"@,
            "--upgrade"@,
            "--isolated"@,
            "--disable-pip-version-check"@,
            "--no-warn-script-location"@,
            "virtualenv"@,
        ]);
    }
    c
}

/// The base-installer bootstrap for the runtime unpacked at `dir`:
/// nothing when the distribution ships an installer or the fast
/// installer is in play, else the bootstrap module run with that
/// runtime's interpreter.
pub fn ensure_base_pip(cfg: &Config, renv: &RuntimeEnv, dir: &str) -> (r: Option<CommandSpec>)
    ensures
        spec_needs_base_pip(*cfg) <==> r is Some,
        match r {
            Some(c) => c.program@ == joined(dir@, cfg.distribution_python_path@)
                && c.args_view() == seq![cfg.python_isolation_flag@, "-m"@, "ensurepip"@]
                && c.env_view() == spec_env_overlay(*cfg, *renv),
            None => true,
        },
{
    if cfg.distribution_pip_available || cfg.uv_enabled {
        return None;
    }
    let py = path_join(dir, cfg.distribution_python_path.as_str());
    let mut c = python_command(cfg, renv, py);
    c.arg("-m".to_owned());
    c.arg("ensurepip".to_owned());
    proof {
        assert(c.args_view() =~= seq![cfg.python_isolation_flag@, "-m"@, "ensurepip"@]);
    }
    Some(c)
}

/// A file the shell must write into the cache before launching.
pub struct FileWrite {
    /// Where the file goes.
    pub path: String,
    /// What it holds.
    pub contents: String,
}

/// The terminal application invocation, with any cache file it needs.
pub struct RunProject {
    /// The command that runs the application.
    pub command: CommandSpec,
    /// A script or notebook to cache first, when not yet present.
    pub cache_write: Option<FileWrite>,
}

/// The program of the terminal invocation: the windowed interpreter
/// for a windowed program on a windows-style platform, else the
/// plain one.
pub open spec fn spec_run_project_program(cfg: Config) -> Seq<char> {
    if cfg.windows && cfg.is_gui {
        spec_pythonw_path(cfg)
    } else {
        spec_python_path(cfg)
    }
}

/// The execution-target arguments of the terminal invocation: inline
/// code, a module, a cached script, or a cached notebook — the
/// targets are mutually exclusive by construction.
pub open spec fn spec_run_project_target_args(cfg: Config) -> Seq<Seq<char>> {
    if cfg.exec_code@.len() > 0 {
        seq!["-c"@, cfg.exec_code@]
    } else if cfg.exec_module@.len() > 0 {
        seq!["-m"@, cfg.exec_module@]
    } else if cfg.exec_script@.len() > 0 {
        seq![spec_exec_script_path(cfg)]
    } else {
        seq!["-m"@, "notebook"@, spec_exec_notebook_path(cfg)]
    }
}

/// The cache write the terminal invocation needs first, if any.
pub open spec fn spec_run_project_write(
    cfg: Config,
    script_present: bool,
    notebook_present: bool,
) -> Option<(Seq<char>, Seq<char>)> {
    if cfg.exec_code@.len() > 0 || cfg.exec_module@.len() > 0 {
        None
    } else if cfg.exec_script@.len() > 0 {
        if script_present {
            None
        } else {
            Some((spec_exec_script_path(cfg), cfg.exec_script@))
        }
    } else {
        if notebook_present {
            None
        } else {
            Some((spec_exec_notebook_path(cfg), cfg.exec_notebook@))
        }
    }
}

/// Builds the terminal application invocation.  `script_present` and
/// `notebook_present` say whether the cached copy of the respective
/// target already exists; `passthrough` is the launcher's own argv
/// tail, handed through unchanged.
pub fn run_project(
    cfg: &Config,
    renv: &RuntimeEnv,
    script_present: bool,
    notebook_present: bool,
    passthrough: &Vec<String>,
) -> (r: RunProject)
    ensures
        r.command.program@ == spec_run_project_program(*cfg),
        r.command.args_view() == seq![cfg.python_isolation_flag@]
            + spec_run_project_target_args(*cfg) + passthrough.deep_view(),
        r.command.env_view() == spec_env_overlay(*cfg, *renv),
        match r.cache_write {
            Some(fw) => spec_run_project_write(*cfg, script_present, notebook_present)
                == Some((fw.path@, fw.contents@)),
            None => spec_run_project_write(*cfg, script_present, notebook_present) is None,
        },
{
    let program = if cfg.windows && cfg.is_gui {
        pythonw_path(cfg)
    } else {
        python_path(cfg)
    };
    let mut c = python_command(cfg, renv, program);
    let mut write: Option<FileWrite> = None;
    if cfg.exec_code.as_str().unicode_len() > 0 {
        c.arg("-c".to_owned());
        c.arg(cfg.exec_code.clone());
    } else if cfg.exec_module.as_str().unicode_len() > 0 {
        c.arg("-m".to_owned());
        c.arg(cfg.exec_module.clone());
    } else if cfg.exec_script.as_str().unicode_len() > 0 {
        let path = exec_script_path(cfg);
        if !script_present {
            write = Some(FileWrite { path: path.clone(), contents: cfg.exec_script.clone() });
        }
        c.arg(path);
    } else {
        let path = exec_notebook_path(cfg);
        if !notebook_present {
            write = Some(FileWrite { path: path.clone(), contents: cfg.exec_notebook.clone() });
        }
        c.arg("-m".to_owned());
        c.arg("notebook".to_owned());
        c.arg(path);
    }
    let ghost fixed = c.args_view();
    let n = passthrough.len();
    let mut i: usize = 0;
    while i < n
        invariant
            i <= n,
            n == passthrough@.len(),
            c.program@ == spec_run_project_program(*cfg),
            c.env_view() == spec_env_overlay(*cfg, *renv),
            c.args_view() == fixed + passthrough.deep_view().take(i as int),
            fixed == seq![cfg.python_isolation_flag@] + spec_run_project_target_args(*cfg),
        decreases n - i,
    {
        let t = passthrough[i].clone();
        proof {
            assert(passthrough.deep_view()[i as int] == passthrough@[i as int]@);
        }
        c.arg(t);
        proof {
            assert(fixed + passthrough.deep_view().take(i as int)
                + seq![passthrough.deep_view()[i as int]]
                =~= fixed + passthrough.deep_view().take(i + 1));
        }
        i += 1;
    }
    proof {
        assert(passthrough.deep_view().take(n as int) =~= passthrough.deep_view());
        assert(fixed =~= seq![cfg.python_isolation_flag@] + spec_run_project_target_args(*cfg));
    }
    RunProject { command: c, cache_write: write }
}

/// Appends the configured extras to a payload specifier.
pub open spec fn spec_apply_features(cfg: Config, target: Seq<char>) -> Seq<char> {
    if cfg.pip_project_features@.len() == 0 {
        target
    } else {
        target + "["@ + cfg.pip_project_features@ + "]"@
    }
}

/// Appends the configured extras to a payload specifier.
pub fn apply_project_features(cfg: &Config, target: &str) -> (r: String)
    ensures
        r@ == spec_apply_features(*cfg, target@),
{
    if cfg.pip_project_features.as_str().unicode_len() == 0 {
        target.to_owned()
    } else {
        let mut s = target.to_owned();
        s.append("[");
        s.append(cfg.pip_project_features.as_str());
        s.append("]");
        s
    }
}

/// Where the payload comes from: bytes embedded in the binary, a
/// generated dependency file, or a registry coordinate.
#[derive(Clone, Copy, PartialEq, Eq, Structural, Debug)]
pub enum PayloadSource {
    /// The embedded payload archive, staged to a scratch file first.
    EmbeddedFile,
    /// The decoded dependency file, staged to a scratch file first.
    DependencyFile,
    /// The `name==version` coordinate resolved by the installer.
    Registry,
}

/// The payload source the configuration selects.
pub open spec fn spec_payload_source(cfg: Config) -> PayloadSource {
    if cfg.embedded_project@.len() > 0 {
        PayloadSource::EmbeddedFile
    } else if cfg.project_dependency_file@.len() == 0 {
        PayloadSource::Registry
    } else {
        PayloadSource::DependencyFile
    }
}

/// Selects the payload source.
pub fn payload_source(cfg: &Config) -> (r: PayloadSource)
    ensures
        r == spec_payload_source(*cfg),
{
    if cfg.embedded_project.len() > 0 {
        PayloadSource::EmbeddedFile
    } else if cfg.project_dependency_file.as_str().unicode_len() == 0 {
        PayloadSource::Registry
    } else {
        PayloadSource::DependencyFile
    }
}

/// Whether the extra installer arguments restrict the install to
/// prebuilt artifacts only.
pub open spec fn spec_binary_only(cfg: Config) -> bool {
    contains_seq(cfg.pip_extra_args@, "--only-binary :all:"@) || contains_seq(
        cfg.pip_extra_args@,
        "--only-binary=:all:"@,
    )
}

/// The human-readable payload name and version.
pub open spec fn spec_install_target(cfg: Config) -> Seq<char> {
    cfg.project_name@ + " "@ + cfg.project_version@
}

/// The progress label of the payload install: a pure unpack of
/// prebuilt artifacts is labelled as such, a build-and-install
/// otherwise.
pub open spec fn spec_install_label(cfg: Config) -> Seq<char> {
    let unpack = if spec_payload_source(cfg) == PayloadSource::EmbeddedFile {
        spec_binary_only(cfg) && ends_with_seq(cfg.project_embed_file_name@, ".whl"@)
    } else {
        spec_binary_only(cfg)
    };
    (if unpack {
        "Unpacking "@
    } else {
        "Installing "@
    }) + spec_install_target(cfg)
}

/// The payload-specifier arguments appended to the install command:
/// the staged archive, the staged dependency file, or the registry
/// coordinate with its extras.
pub open spec fn spec_payload_args(cfg: Config, staged: Seq<char>) -> Seq<Seq<char>> {
    match spec_payload_source(cfg) {
        PayloadSource::EmbeddedFile => seq![spec_apply_features(cfg, staged)],
        PayloadSource::DependencyFile => seq!["-r"@, staged],
        PayloadSource::Registry => seq![
            spec_apply_features(cfg, cfg.project_name@) + "=="@ + cfg.project_version@,
        ],
    }
}

/// Builds the payload install invocation.  `staged` is the scratch
/// path where the shell materialized the embedded archive or the
/// dependency file; it is ignored for a registry install.  Also
/// returns the progress label under which the subprocess runs.
pub fn install_project(cfg: &Config, renv: &RuntimeEnv, staged: &str) -> (r: (
    CommandSpec,
    String,
))
    ensures
        r.0.program@ == spec_pip_program(*cfg),
        r.0.args_view() == spec_pip_install_args(*cfg) + spec_payload_args(*cfg, staged@),
        r.0.env_view() == spec_env_overlay(*cfg, *renv),
        r.1@ == spec_install_label(*cfg),
{
    let mut c = pip_install_command(cfg, renv);
    let binary_only = contains_sub(cfg.pip_extra_args.as_str(), "--only-binary :all:")
        || contains_sub(cfg.pip_extra_args.as_str(), "--only-binary=:all:");
    let source = payload_source(cfg);
    let unpack: bool;
    match source {
        PayloadSource::EmbeddedFile => {
            c.arg(apply_project_features(cfg, staged));
            unpack = binary_only && ends_with(cfg.project_embed_file_name.as_str(), ".whl");
        },
        PayloadSource::DependencyFile => {
            c.arg("-r".to_owned());
            c.arg(staged.to_owned());
            unpack = binary_only;
        },
        PayloadSource::Registry => {
            let mut spec = apply_project_features(cfg, cfg.project_name.as_str());
            spec.append("==");
            spec.append(cfg.project_version.as_str());
            c.arg(spec);
            unpack = binary_only;
        },
    }
    let mut label = String::new();
    if unpack {
        label.append("Unpacking ");
    } else {
        label.append("Installing ");
    }
    label.append(cfg.project_name.as_str());
    label.append(" ");
    label.append(cfg.project_version.as_str());
    proof {
        assert(c.args_view() =~= spec_pip_install_args(*cfg) + spec_payload_args(*cfg, staged@));
    }
    (c, label)
}

/// Where the runtime archive comes from on a cache miss.
pub enum DistributionFetch {
    /// Write the embedded archive bytes.
    Embedded,
    /// Download from the declared source locator.
    Download {
        /// The source locator.
        url: String,
    },
}

/// A zero-length embedded archive is the in-binary signal meaning
/// "fetch from the network instead".
pub fn distribution_fetch_source(cfg: &Config) -> (r: DistributionFetch)
    ensures
        cfg.embedded_distribution@.len() > 0 ==> r is Embedded,
        cfg.embedded_distribution@.len() == 0 ==> (match r {
            DistributionFetch::Download { url } => url@ == cfg.distribution_source@,
            DistributionFetch::Embedded => false,
        }),
{
    if cfg.embedded_distribution.len() > 0 {
        DistributionFetch::Embedded
    } else {
        DistributionFetch::Download { url: cfg.distribution_source.clone() }
    }
}

/// The download locator of the external installer zipapp.
pub open spec fn spec_pip_zipapp_url(cfg: Config) -> Seq<char> {
    if cfg.pip_version@ == "latest"@ {
        "https://bootstrap.pypa.io/pip/pip.pyz"@
    } else {
        "https://bootstrap.pypa.io/pip/pip.pyz#/pip-"@ + cfg.pip_version@ + ".pyz"@
    }
}

/// The download locator of the external installer zipapp.
pub fn pip_zipapp_url(cfg: &Config) -> (r: String)
    ensures
        r@ == spec_pip_zipapp_url(*cfg),
{
    if str_eq(cfg.pip_version.as_str(), "latest") {
        "https://bootstrap.pypa.io/pip/pip.pyz".to_owned()
    } else {
        let mut s = String::new();
        s.append("https://bootstrap.pypa.io/pip/pip.pyz#/pip-");
        s.append(cfg.pip_version.as_str());
        s.append(".pyz");
        s
    }
}

/// The download locator of the fast-installer release artifact.
pub open spec fn spec_uv_download_url(cfg: Config) -> Seq<char> {
    if cfg.uv_version@ == "any"@ {
        "https://github.com/astral-sh/uv/releases/latest/download/"@ + cfg.uv_artifact_name@
    } else {
        "https://github.com/astral-sh/uv/releases/download/"@ + cfg.uv_version@ + "/"@
            + cfg.uv_artifact_name@
    }
}

/// The download locator of the fast-installer release artifact.
pub fn uv_download_url(cfg: &Config) -> (r: String)
    ensures
        r@ == spec_uv_download_url(*cfg),
{
    let mut s = String::new();
    if str_eq(cfg.uv_version.as_str(), "any") {
        s.append("https://github.com/astral-sh/uv/releases/latest/download/");
        s.append(cfg.uv_artifact_name.as_str());
    } else {
        s.append("https://github.com/astral-sh/uv/releases/download/");
        s.append(cfg.uv_version.as_str());
        s.append("/");
        s.append(cfg.uv_artifact_name.as_str());
    }
    s
}

/// Whether the fast-installer artifact unpacks as a zip archive
/// rather than a compressed tarball.
pub fn uv_artifact_is_zip(cfg: &Config) -> (r: bool)
    ensures
        r == ends_with_seq(cfg.uv_artifact_name@, ".zip"@),
{
    ends_with(cfg.uv_artifact_name.as_str(), ".zip")
}

/// The directory name the artifact may nest its binary under: the
/// artifact name with its archive suffixes removed.
pub open spec fn spec_uv_nested_dir(cfg: Config) -> Seq<char> {
    trim_end_all_seq(trim_end_all_seq(cfg.uv_artifact_name@, ".zip"@), ".tar.gz"@)
}

/// The directory name the artifact may nest its binary under.
pub fn uv_nested_dir(cfg: &Config) -> (r: String)
    ensures
        r@ == spec_uv_nested_dir(*cfg),
{
    let a = trim_end_all(cfg.uv_artifact_name.as_str(), ".zip");
    trim_end_all(a.as_str(), ".tar.gz")
}

/// Where the unpacked fast-installer binary stands in the scratch
/// directory: at top level, or nested under the artifact's stem when
/// the top-level file is absent.
pub fn uv_staged_binary(cfg: &Config, scratch: &str, flat_present: bool) -> (r: String)
    ensures
        flat_present ==> r@ == joined(scratch@, crate::app::spec_uv_binary_name(*cfg)),
        !flat_present ==> r@ == joined(
            joined(scratch@, spec_uv_nested_dir(*cfg)),
            crate::app::spec_uv_binary_name(*cfg),
        ),
{
    let name = crate::app::uv_binary_name(cfg);
    if flat_present {
        path_join(scratch, name.as_str())
    } else {
        let nested = uv_nested_dir(cfg);
        let base = path_join(scratch, nested.as_str());
        path_join(base.as_str(), name.as_str())
    }
}

/// What happens after a setup subprocess finishes.
#[derive(Clone, Copy, PartialEq, Eq, Structural, Debug)]
pub enum SetupVerdict {
    /// The subprocess succeeded; materialization goes on.
    Proceed,
    /// The subprocess failed: print its captured output, remove the
    /// installation directory, and exit with the subprocess's code.
    Abort {
        /// Whether the installation directory is removed.
        remove_install: bool,
        /// The exit code the launcher terminates with.
        exit_code: i32,
    },
}

/// Decides the outcome of a setup subprocess: success proceeds; any
/// failure rolls the installation back and terminates the launcher
/// with the subprocess's own exit code, so a half-installed payload
/// is never left looking ready.
pub fn check_setup_status(success: bool, code: Option<i32>) -> (r: SetupVerdict)
    ensures
        success ==> r == SetupVerdict::Proceed,
        !success ==> r == (SetupVerdict::Abort {
            remove_install: true,
            exit_code: spec_forwarded_exit_code(code),
        }),
{
    if success {
        SetupVerdict::Proceed
    } else {
        SetupVerdict::Abort {
            remove_install: true,
            exit_code: crate::process::forwarded_exit_code(code),
        }
    }
}

} // verus!
