//! Direct invocation of the payload installer.

use vstd::prelude::*;

use crate::config::Config;
use crate::distribution::{apply_plan, apply_plan_exec, ensure_installer_available, ensure_ready, pip_base_command, spec_ensure_ready_plan, spec_env_overlay, spec_installer_plan, spec_pip_base_args, spec_pip_program, Step, WorldView};
use crate::process::{CommandSpec, RuntimeEnv};

verus! {

/// The steps that make the installer runnable: the ready check, then
/// whatever installer bootstrap the world after it still needs.
pub open spec fn spec_pip_passthrough_plan(cfg: Config, w: WorldView) -> Seq<Step> {
    let ready = spec_ensure_ready_plan(cfg, w);
    ready + spec_installer_plan(cfg, apply_plan(w, ready))
}

/// The direct installer command.
pub struct Cli {
    /// Arguments handed through to the installer unchanged.
    pub args: Vec<String>,
}

impl Cli {
    /// Plans the preparation steps and builds the installer command
    /// with the passthrough arguments.
    pub fn exec(self, cfg: &Config, w: &WorldView, renv: &RuntimeEnv) -> (r: (
        Vec<Step>,
        CommandSpec,
    ))
        ensures
            r.0@ == spec_pip_passthrough_plan(*cfg, *w),
            r.1.program@ == spec_pip_program(*cfg),
            r.1.args_view() == spec_pip_base_args(*cfg) + self.args.deep_view(),
            r.1.env_view() == spec_env_overlay(*cfg, *renv),
    {
        let mut plan = ensure_ready(cfg, w);
        let after = apply_plan_exec(w, &plan);
        let mut inst = ensure_installer_available(cfg, &after);
        plan.append(&mut inst);
        let mut c = pip_base_command(cfg, renv);
        let ghost base = c.args_view();
        let n = self.args.len();
        let mut i: usize = 0;
        while i < n
            invariant
                i <= n,
                n == self.args@.len(),
                c.program@ == spec_pip_program(*cfg),
                c.env_view() == spec_env_overlay(*cfg, *renv),
                c.args_view() == base + self.args.deep_view().take(i as int),
                base == spec_pip_base_args(*cfg),
            decreases n - i,
        {
            let a = self.args[i].clone();
            proof {
                assert(self.args.deep_view()[i as int] == self.args@[i as int]@);
            }
            c.arg(a);
            proof {
                assert(base + self.args.deep_view().take(i as int)
                    + seq![self.args.deep_view()[i as int]]
                    =~= base + self.args.deep_view().take(i + 1));
            }
            i += 1;
        }
        proof {
            assert(self.args.deep_view().take(n as int) =~= self.args.deep_view());
            assert(plan@ =~= spec_pip_passthrough_plan(*cfg, *w));
        }
        (plan, c)
    }
}

} // verus!
