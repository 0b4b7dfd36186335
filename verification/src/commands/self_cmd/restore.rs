//! Restoring the installation: delete it and materialize it afresh.

use vstd::prelude::*;

use crate::config::Config;
use crate::distribution::{apply_plan, ensure_ready, lemma_apply_plan_concat, lemma_ensure_ready_makes_present, spec_ensure_ready_plan, Step, WorldView};

verus! {

/// The world after the installation directory is deleted.
pub open spec fn spec_wiped(w: WorldView) -> WorldView {
    WorldView { install_dir_present: false, payload_installed: false, ..w }
}

/// The restore plan: delete the installation when it exists, then the
/// full ready plan for the world that deletion leaves.
pub open spec fn spec_restore_plan(cfg: Config, w: WorldView) -> Seq<Step> {
    if w.install_dir_present {
        seq![Step::RemoveInstallDir] + spec_ensure_ready_plan(cfg, spec_wiped(w))
    } else {
        spec_ensure_ready_plan(cfg, w)
    }
}

/// The restore command.
pub struct Cli {}

impl Cli {
    /// Plans the restore: unconditionally delete and re-materialize.
    pub fn exec(self, cfg: &Config, w: &WorldView) -> (r: Vec<Step>)
        ensures
            r@ == spec_restore_plan(*cfg, *w),
    {
        if w.install_dir_present {
            let mut v: Vec<Step> = Vec::new();
            v.push(Step::RemoveInstallDir);
            let wiped = WorldView {
                install_dir_present: false,
                payload_installed: false,
                ..*w
            };
            let mut rest = ensure_ready(cfg, &wiped);
            v.append(&mut rest);
            proof {
                assert(v@ =~= spec_restore_plan(*cfg, *w));
            }
            v
        } else {
            ensure_ready(cfg, w)
        }
    }
}

/// Law: restoring a present installation removes the directory and
/// fully re-materializes it, ending in exactly the state a fresh
/// materialization from the removed world reaches — with the
/// installation present again.
pub proof fn lemma_restore_rematerializes(cfg: Config, w: WorldView)
    requires
        w.install_dir_present,
    ensures
        apply_plan(w, spec_restore_plan(cfg, w)) == apply_plan(
            spec_wiped(w),
            spec_ensure_ready_plan(cfg, spec_wiped(w)),
        ),
        apply_plan(w, spec_restore_plan(cfg, w)).install_dir_present,
{
    let rm = seq![Step::RemoveInstallDir];
    let rest = spec_ensure_ready_plan(cfg, spec_wiped(w));
    lemma_apply_plan_concat(w, rm, rest);
    assert(rm.skip(1) =~= Seq::<Step>::empty());
    assert(rm[0] == Step::RemoveInstallDir);
    assert(apply_plan(spec_wiped(w), Seq::<Step>::empty()) == spec_wiped(w));
    assert(apply_plan(w, rm) == spec_wiped(w));
    lemma_ensure_ready_makes_present(cfg, spec_wiped(w));
}

} // verus!
