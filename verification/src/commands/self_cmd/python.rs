//! Direct invocation of the installed interpreter.

use vstd::prelude::*;

use crate::app::{python_path, spec_python_path};
use crate::config::Config;
use crate::distribution::{ensure_ready, python_command, spec_ensure_ready_plan, spec_env_overlay, Step, WorldView};
use crate::process::{CommandSpec, RuntimeEnv};

verus! {

/// The direct interpreter command.
pub struct Cli {
    /// Arguments handed through to the interpreter unchanged.
    pub args: Vec<String>,
}

impl Cli {
    /// Plans the ready check and builds the interpreter command with
    /// the passthrough arguments.
    pub fn exec(self, cfg: &Config, w: &WorldView, renv: &RuntimeEnv) -> (r: (
        Vec<Step>,
        CommandSpec,
    ))
        ensures
            r.0@ == spec_ensure_ready_plan(*cfg, *w),
            r.1.program@ == spec_python_path(*cfg),
            r.1.args_view() == seq![cfg.python_isolation_flag@] + self.args.deep_view(),
            r.1.env_view() == spec_env_overlay(*cfg, *renv),
    {
        let plan = ensure_ready(cfg, w);
        let mut c = python_command(cfg, renv, python_path(cfg));
        let ghost base = c.args_view();
        let n = self.args.len();
        let mut i: usize = 0;
        while i < n
            invariant
                i <= n,
                n == self.args@.len(),
                c.program@ == spec_python_path(*cfg),
                c.env_view() == spec_env_overlay(*cfg, *renv),
                c.args_view() == base + self.args.deep_view().take(i as int),
                base == seq![cfg.python_isolation_flag@],
            decreases n - i,
        {
            let a = self.args[i].clone();
            proof {
                assert(self.args.deep_view()[i as int] == self.args@[i as int]@);
            }
            c.arg(a);
            proof {
                assert(base + self.args.deep_view().take(i as int)
                    + seq![self.args.deep_view()[i as int]]
                    =~= base + self.args.deep_view().take(i + 1));
            }
            i += 1;
        }
        proof {
            assert(self.args.deep_view().take(n as int) =~= self.args.deep_view());
        }
        (plan, c)
    }
}

} // verus!
