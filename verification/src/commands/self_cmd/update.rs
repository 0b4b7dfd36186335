//! Updating the payload in place: materialize or restore as needed,
//! run the installer in upgrade mode, roll back a fresh installation
//! on failure, and report the resulting version from the captured
//! output.

use vstd::prelude::*;

use crate::commands::self_cmd::restore::spec_wiped;
use crate::config::Config;
use crate::distribution::{apply_plan, apply_plan_exec, ensure_installer_available, lemma_no_remove_preserves, materialize, pip_install_command, spec_env_overlay, spec_installer_plan, spec_materialize_plan, spec_pip_install_args, spec_pip_program, Step, WorldView};
use crate::process::{CommandSpec, RuntimeEnv};
use crate::strutil::{last_segment, lines, lines_of, split_char, split_sep, starts_with, starts_with_seq};

verus! {

/// The update command.
pub struct Cli {
    /// Allow pre-release and development versions.
    pub pre: bool,
    /// Restore the installation to its default state first.
    pub restore: bool,
}

/// Whether updating is allowed: omitting installation disables it
/// unless updates are explicitly kept allowed.
pub open spec fn spec_update_allowed(cfg: Config) -> bool {
    !(cfg.skip_install && !cfg.allow_updates)
}

/// Whether updating is allowed.
pub fn update_allowed(cfg: &Config) -> (r: bool)
    ensures
        r == spec_update_allowed(*cfg),
{
    !(cfg.skip_install && !cfg.allow_updates)
}

/// The steps that precede the upgrade subprocess: a fresh
/// materialization when no installation exists, a delete and
/// re-materialization when restoring, and nothing otherwise.
pub open spec fn spec_update_pre_plan(cfg: Config, w: WorldView, restore: bool) -> Seq<Step> {
    if !w.install_dir_present {
        spec_materialize_plan(cfg, w)
    } else if restore {
        seq![Step::RemoveInstallDir] + spec_materialize_plan(cfg, spec_wiped(w))
    } else {
        Seq::<Step>::empty()
    }
}

/// The whole update plan: the preparation steps, the installer
/// bootstrap that the world then still needs, and the upgrade run.
pub open spec fn spec_update_plan(cfg: Config, w: WorldView, restore: bool) -> Seq<Step> {
    let pre = spec_update_pre_plan(cfg, w, restore);
    pre + spec_installer_plan(cfg, apply_plan(w, pre)) + seq![Step::UpdateProject]
}

impl Cli {
    /// Whether the update may run, and the plan when it may.  A
    /// refused update reports itself and exits with a failure code.
    pub fn exec(self, cfg: &Config, w: &WorldView) -> (r: (bool, Vec<Step>))
        ensures
            r.0 == spec_update_allowed(*cfg),
            r.0 ==> r.1@ == spec_update_plan(*cfg, *w, self.restore),
            !r.0 ==> r.1@ == Seq::<Step>::empty(),
    {
        if !update_allowed(cfg) {
            (false, Vec::new())
        } else {
            (true, update_plan(cfg, w, self.restore))
        }
    }
}

/// Plans the update for the observed world.
pub fn update_plan(cfg: &Config, w: &WorldView, restore: bool) -> (r: Vec<Step>)
    ensures
        r@ == spec_update_plan(*cfg, *w, restore),
{
    let mut pre: Vec<Step>;
    if !w.install_dir_present {
        pre = materialize(cfg, w);
    } else if restore {
        pre = Vec::new();
        pre.push(Step::RemoveInstallDir);
        let wiped = WorldView { install_dir_present: false, payload_installed: false, ..*w };
        let mut m = materialize(cfg, &wiped);
        pre.append(&mut m);
        proof {
            assert(pre@ =~= spec_update_pre_plan(*cfg, *w, restore));
        }
    } else {
        pre = Vec::new();
        proof {
            assert(pre@ =~= spec_update_pre_plan(*cfg, *w, restore));
        }
    }
    let after = apply_plan_exec(w, &pre);
    let mut inst = ensure_installer_available(cfg, &after);
    let mut r = pre;
    r.append(&mut inst);
    r.push(Step::UpdateProject);
    proof {
        assert(r@ =~= spec_update_plan(*cfg, *w, restore));
    }
    r
}

/// The arguments of the upgrade subprocess, after the standard
/// install arguments: the pre-release switch when asked for, the
/// upgrade switch, and the payload — by name, or by the staged
/// dependency file when one is configured.
pub open spec fn spec_update_extra_args(cfg: Config, pre: bool, staged: Seq<char>) -> Seq<
    Seq<char>,
> {
    (if pre {
        seq!["--pre"@]
    } else {
        Seq::<Seq<char>>::empty()
    }) + seq!["--upgrade"@] + (if cfg.project_dependency_file@.len() == 0 {
        seq![cfg.project_name@]
    } else {
        seq!["-r"@, staged]
    })
}

/// Builds the upgrade subprocess invocation.  `staged` is the
/// scratch path of the materialized dependency file; it is ignored
/// when the payload is named directly.
pub fn update_command(cfg: &Config, renv: &RuntimeEnv, pre: bool, staged: &str) -> (r: CommandSpec)
    ensures
        r.program@ == spec_pip_program(*cfg),
        r.args_view() == spec_pip_install_args(*cfg) + spec_update_extra_args(*cfg, pre, staged@),
        r.env_view() == spec_env_overlay(*cfg, *renv),
{
    let mut c = pip_install_command(cfg, renv);
    if pre {
        c.arg("--pre".to_owned());
    }
    c.arg("--upgrade".to_owned());
    if cfg.project_dependency_file.as_str().unicode_len() == 0 {
        c.arg(cfg.project_name.clone());
    } else {
        c.arg("-r".to_owned());
        c.arg(staged.to_owned());
    }
    proof {
        assert(c.args_view() =~= spec_pip_install_args(*cfg) + spec_update_extra_args(
            *cfg,
            pre,
            staged@,
        ));
    }
    c
}

/// Whether a failed upgrade removes the installation directory: only
/// one that did not exist before this update attempt is removed; a
/// pre-existing installation is never deleted by a failed upgrade.
pub fn update_failure_removes(preexisting: bool) -> (r: bool)
    ensures
        r == !preexisting,
{
    !preexisting
}

/// The world after the failure cleanup of an update attempt.
pub open spec fn spec_update_cleanup(w: WorldView, preexisting: bool) -> WorldView {
    if !preexisting {
        spec_wiped(w)
    } else {
        w
    }
}

/// Law: a failing upgrade of a fresh installation leaves no
/// installation directory behind, however far the attempt got; the
/// same failure on a pre-existing installation leaves it untouched.
pub proof fn lemma_update_rollback(cfg: Config, w: WorldView, restore: bool, k: int)
    requires
        0 <= k <= spec_update_plan(cfg, w, restore).len(),
    ensures
        !w.install_dir_present ==> !spec_update_cleanup(
            apply_plan(w, spec_update_plan(cfg, w, restore).take(k)),
            false,
        ).install_dir_present,
        w.install_dir_present && !restore ==> spec_update_cleanup(
            apply_plan(w, spec_update_plan(cfg, w, restore).take(k)),
            true,
        ) == apply_plan(w, spec_update_plan(cfg, w, restore).take(k)),
        w.install_dir_present && !restore ==> apply_plan(
            w,
            spec_update_plan(cfg, w, restore).take(k),
        ).install_dir_present,
{
    let plan = spec_update_plan(cfg, w, restore);
    if w.install_dir_present && !restore {
        let inst = spec_installer_plan(cfg, w);
        assert(spec_update_pre_plan(cfg, w, restore) =~= Seq::<Step>::empty());
        assert(apply_plan(w, Seq::<Step>::empty()) == w);
        assert forall|i: int| 0 <= i < plan.take(k).len() implies plan.take(k)[i]
            != Step::RemoveInstallDir by {
            assert(plan[i] == (Seq::<Step>::empty() + inst + seq![Step::UpdateProject])[i]);
            if i < inst.len() {
                assert(plan[i] == inst[i]);
            } else {
                assert(plan[i] == Step::UpdateProject);
            }
        }
        lemma_no_remove_preserves(w, plan.take(k));
    }
}

/// The result of scanning the captured upgrade output.
pub struct UpdateScan {
    /// The version pip reported as already satisfied, parenthesized,
    /// from the last such line.
    pub existing: Option<Seq<char>>,
    /// The version pip reported as newly installed.
    pub installed: Option<Seq<char>>,
}

/// The line prefix that reports an already-satisfied requirement.
pub open spec fn spec_req_prefix(name: Seq<char>) -> Seq<char> {
    "Requirement already satisfied: "@ + name + " in"@
}

/// The first token that extends `prefix`, with the prefix removed.
pub open spec fn spec_find_versioned(toks: Seq<Seq<char>>, prefix: Seq<char>) -> Option<Seq<char>>
    decreases toks.len(),
{
    if toks.len() == 0 {
        None
    } else if starts_with_seq(toks[0], prefix) {
        Some(toks[0].skip(prefix.len() as int))
    } else {
        spec_find_versioned(toks.skip(1), prefix)
    }
}

/// Scans the upgrade output lines: the last already-satisfied
/// version seen before a successful-install line, and the version a
/// successful-install line names for the payload.  Scanning stops at
/// the first successful-install line.
pub open spec fn spec_scan_lines(
    ls: Seq<Seq<char>>,
    name: Seq<char>,
    existing: Option<Seq<char>>,
) -> UpdateScan
    decreases ls.len(),
{
    if ls.len() == 0 {
        UpdateScan { existing, installed: None }
    } else if starts_with_seq(ls[0], spec_req_prefix(name)) {
        spec_scan_lines(ls.skip(1), name, Some(split_sep(ls[0], ' ').last()))
    } else if starts_with_seq(ls[0], "Successfully installed"@) {
        UpdateScan {
            existing,
            installed: spec_find_versioned(split_sep(ls[0], ' ').skip(2), name + "-"@),
        }
    } else {
        spec_scan_lines(ls.skip(1), name, existing)
    }
}

/// What the update reports to the user.
pub enum UpdateReport {
    /// A new version was installed.
    UpdatedTo {
        /// The installed version.
        version: String,
    },
    /// The latest version was already installed.
    AlreadyLatest {
        /// The version, with its surrounding parentheses removed.
        version: String,
    },
    /// The output named no version either way.
    Updated,
}

/// The mathematical shape of an update report.
pub enum UpdateReportModel {
    /// A new version was installed.
    UpdatedTo(Seq<char>),
    /// The latest version was already installed.
    AlreadyLatest(Seq<char>),
    /// No version was named.
    Updated,
}

/// The model of an update report.
pub open spec fn update_report_model(r: UpdateReport) -> UpdateReportModel {
    match r {
        UpdateReport::UpdatedTo { version } => UpdateReportModel::UpdatedTo(version@),
        UpdateReport::AlreadyLatest { version } => UpdateReportModel::AlreadyLatest(version@),
        UpdateReport::Updated => UpdateReportModel::Updated,
    }
}

/// A token with its first and last character removed, when it has
/// both: how the parenthesized already-satisfied version is unwrapped.
pub open spec fn spec_unwrapped(v: Seq<char>) -> Seq<char> {
    if v.len() >= 2 {
        v.subrange(1, v.len() - 1)
    } else {
        v
    }
}

/// What the captured upgrade output means.
pub open spec fn spec_update_report(output: Seq<char>, name: Seq<char>) -> UpdateReportModel {
    let scan = spec_scan_lines(lines_of(output), name, None);
    match scan.installed {
        Some(v) => UpdateReportModel::UpdatedTo(v),
        None => match scan.existing {
            Some(v) => UpdateReportModel::AlreadyLatest(spec_unwrapped(v)),
            None => UpdateReportModel::Updated,
        },
    }
}

fn req_prefix(name: &str) -> (r: String)
    ensures
        r@ == spec_req_prefix(name@),
{
    let mut s = String::new();
    s.append("Requirement already satisfied: ");
    s.append(name);
    s.append(" in");
    s
}

fn find_versioned(toks: &Vec<String>, start: usize, prefix: &str) -> (r: Option<String>)
    requires
        start <= toks@.len(),
    ensures
        match r {
            Some(v) => spec_find_versioned(toks.deep_view().skip(start as int), prefix@)
                == Some(v@),
            None => spec_find_versioned(toks.deep_view().skip(start as int), prefix@) is None,
        },
{
    let n = toks.len();
    let mut i: usize = start;
    while i < n
        invariant
            start <= i <= n,
            n == toks@.len(),
            spec_find_versioned(toks.deep_view().skip(i as int), prefix@) == spec_find_versioned(
                toks.deep_view().skip(start as int),
                prefix@,
            ),
        decreases n - i,
    {
        let t = &toks[i];
        proof {
            assert(toks.deep_view().skip(i as int)[0] == toks@[i as int]@);
            assert(toks.deep_view().skip(i as int).skip(1) =~~= toks.deep_view().skip(i + 1));
        }
        if starts_with(t.as_str(), prefix) {
            let plen = prefix.unicode_len();
            let v = t.as_str().substring_char(plen, t.as_str().unicode_len()).to_owned();
            proof {
                assert(v@ =~= toks@[i as int]@.skip(prefix@.len() as int));
            }
            return Some(v);
        }
        i += 1;
    }
    proof {
        assert(toks.deep_view().skip(n as int) =~= Seq::<Seq<char>>::empty());
    }
    None
}

/// Parses the captured upgrade output into what is reported.
pub fn parse_update_output(output: &str, name: &str) -> (r: UpdateReport)
    ensures
        update_report_model(r) == spec_update_report(output@, name@),
{
    let ls = lines(output);
    let prefix = req_prefix(name);
    let mut dashed = name.to_owned();
    dashed.append("-");
    let n = ls.len();
    let mut existing: Option<String> = None;
    let ghost mut g_existing: Option<Seq<char>> = None;
    let mut i: usize = 0;
    proof {
        assert(ls.deep_view().skip(0) =~~= ls.deep_view());
    }
    while i < n
        invariant
            i <= n,
            n == ls@.len(),
            ls.deep_view() == lines_of(output@),
            prefix@ == spec_req_prefix(name@),
            dashed@ == name@ + "-"@,
            match existing {
                Some(v) => g_existing == Some(v@),
                None => g_existing is None,
            },
            spec_scan_lines(ls.deep_view().skip(i as int), name@, g_existing) == spec_scan_lines(
                ls.deep_view(),
                name@,
                None,
            ),
        decreases n - i,
    {
        let l = &ls[i];
        proof {
            assert(ls.deep_view().skip(i as int)[0] == ls@[i as int]@);
            assert(ls.deep_view().skip(i as int).skip(1) =~~= ls.deep_view().skip(i + 1));
        }
        if starts_with(l.as_str(), prefix.as_str()) {
            let v = last_segment(l.as_str(), ' ');
            proof {
                g_existing = Some(v@);
            }
            existing = Some(v);
        } else if starts_with(l.as_str(), "Successfully installed") {
            let toks = split_char(l.as_str(), ' ');
            proof {
                reveal_strlit("Successfully installed");
                assert("Successfully installed"@[12] == ' ');
                assert(ls@[i as int]@.subrange(0, 22) == "Successfully installed"@);
                assert(ls@[i as int]@[12] == ls@[i as int]@.subrange(0, 22)[12]);
                crate::strutil::lemma_split_contains(ls@[i as int]@, ' ');
            }
            let installed = find_versioned(&toks, 2, dashed.as_str());
            proof {
                assert(toks.deep_view().skip(2) =~~= split_sep(ls@[i as int]@, ' ').skip(2));
            }
            match installed {
                Some(v) => {
                    return UpdateReport::UpdatedTo { version: v };
                },
                None => {
                    return finish_report(existing);
                },
            }
        }
        i += 1;
    }
    proof {
        assert(ls.deep_view().skip(n as int) =~= Seq::<Seq<char>>::empty());
    }
    finish_report(existing)
}

fn finish_report(existing: Option<String>) -> (r: UpdateReport)
    ensures
        update_report_model(r) == (match existing {
            Some(v) => UpdateReportModel::AlreadyLatest(spec_unwrapped(v@)),
            None => UpdateReportModel::Updated,
        }),
{
    match existing {
        Some(v) => {
            let len = v.as_str().unicode_len();
            if len >= 2 {
                let inner = v.as_str().substring_char(1, len - 1).to_owned();
                proof {
                    assert(inner@ =~= spec_unwrapped(v@));
                }
                UpdateReport::AlreadyLatest { version: inner }
            } else {
                UpdateReport::AlreadyLatest { version: v }
            }
        },
        None => UpdateReport::Updated,
    }
}

/// The message shown for an update report.
pub open spec fn spec_update_message(r: UpdateReportModel) -> Seq<char> {
    match r {
        UpdateReportModel::UpdatedTo(v) => "Updated to "@ + v,
        UpdateReportModel::AlreadyLatest(v) => "The latest version ("@ + v
            + ") is already installed"@,
        UpdateReportModel::Updated => "Updated"@,
    }
}

/// Renders the message shown for an update report.
pub fn update_message(r: &UpdateReport) -> (s: String)
    ensures
        s@ == spec_update_message(update_report_model(*r)),
{
    match r {
        UpdateReport::UpdatedTo { version } => {
            let mut s = String::new();
            s.append("Updated to ");
            s.append(version.as_str());
            s
        },
        UpdateReport::AlreadyLatest { version } => {
            let mut s = String::new();
            s.append("The latest version (");
            s.append(version.as_str());
            s.append(") is already installed");
            s
        },
        UpdateReport::Updated => "Updated".to_owned(),
    }
}

} // verus!
