//! The process-execution discipline: subprocess specifications as
//! plain data, and the two execution contracts — captured/waited setup
//! runs, and the terminal handoff to the application.
//!
//! Spawning, piping and image replacement live in the unverified
//! shell; the library fixes the program, arguments, environment
//! overlay and launch mode, and the shell performs them literally.

use vstd::prelude::*;

use crate::config::Config;

verus! {

/// One environment variable set for a subprocess.
pub struct EnvVar {
    /// The variable's name.
    pub name: String,
    /// The value it is set to.
    pub value: String,
}

/// The rendered form of an environment overlay.
pub open spec fn env_pairs(env: Seq<EnvVar>) -> Seq<(Seq<char>, Seq<char>)> {
    Seq::new(env.len(), |i: int| (env[i].name@, env[i].value@))
}

/// An externally constructed subprocess specification: program,
/// arguments, and environment overlay, all plain data.
pub struct CommandSpec {
    /// The program to run.
    pub program: String,
    /// Its arguments, in order.
    pub args: Vec<String>,
    /// Environment variables set on top of the inherited environment.
    pub env: Vec<EnvVar>,
}

impl CommandSpec {
    /// The rendered arguments.
    pub open spec fn args_view(&self) -> Seq<Seq<char>> {
        self.args.deep_view()
    }

    /// The rendered environment overlay.
    pub open spec fn env_view(&self) -> Seq<(Seq<char>, Seq<char>)> {
        env_pairs(self.env@)
    }

    /// A command with no arguments and no environment overlay.
    pub fn new(program: String) -> (r: CommandSpec)
        ensures
            r.program@ == program@,
            r.args_view() == Seq::<Seq<char>>::empty(),
            r.env_view() == Seq::<(Seq<char>, Seq<char>)>::empty(),
    {
        let r = CommandSpec { program, args: Vec::new(), env: Vec::new() };
        proof {
            assert(r.args_view() =~= Seq::<Seq<char>>::empty());
            assert(r.env_view() =~= Seq::<(Seq<char>, Seq<char>)>::empty());
        }
        r
    }

    /// Appends one argument.
    pub fn arg(&mut self, a: String)
        ensures
            final(self).program == old(self).program,
            final(self).args_view() == old(self).args_view().push(a@),
            final(self).env == old(self).env,
    {
        let ghost before = self.args.deep_view();
        self.args.push(a);
        proof {
            assert(self.args.deep_view() =~= before.push(a@));
        }
    }

    /// Sets one environment variable.
    pub fn env(&mut self, name: String, value: String)
        ensures
            final(self).program == old(self).program,
            final(self).args == old(self).args,
            final(self).env_view() == old(self).env_view().push((name@, value@)),
    {
        let ghost before = self.env_view();
        let ghost nv = name@;
        let ghost vv = value@;
        self.env.push(EnvVar { name, value });
        proof {
            assert(self.env_view() =~= before.push((nv, vv)));
        }
    }
}

/// What the surrounding shell observed of the process environment at
/// startup: the inherited search path and the launcher's own
/// executable path, when either is available.
pub struct RuntimeEnv {
    /// The inherited value of the search-path variable.
    pub path_var: Option<String>,
    /// The launcher's own executable path.
    pub current_exe: Option<String>,
}

/// How control is handed to the target application.
#[derive(Clone, Copy, PartialEq, Eq, Structural, Debug)]
pub enum LaunchMode {
    /// Replace the current process image in place; no child process.
    ReplaceImage,
    /// Spawn, wait, and forward the child's exit code as our own.
    SpawnWait,
    /// Spawn and return at once without waiting, for windowed
    /// programs, so the launcher itself can disappear.
    SpawnDetached,
}

/// The launch mode for the terminal handoff: windowed programs are
/// spawned detached; otherwise the image is replaced where the
/// platform supports it, and spawn-and-wait is the fallback.
pub open spec fn spec_launch_mode(cfg: Config, can_replace: bool) -> LaunchMode {
    if cfg.is_gui {
        LaunchMode::SpawnDetached
    } else if can_replace {
        LaunchMode::ReplaceImage
    } else {
        LaunchMode::SpawnWait
    }
}

/// Decides how the terminal handoff runs the application.
/// `can_replace` says whether the platform has a true process-replace
/// primitive.
pub fn exec(cfg: &Config, can_replace: bool) -> (m: LaunchMode)
    ensures
        m == spec_launch_mode(*cfg, can_replace),
{
    if cfg.is_gui {
        LaunchMode::SpawnDetached
    } else if can_replace {
        LaunchMode::ReplaceImage
    } else {
        LaunchMode::SpawnWait
    }
}

/// The exit code forwarded for a finished child process: its own code
/// when it has one, and a generic failure code otherwise.
pub open spec fn spec_forwarded_exit_code(code: Option<i32>) -> i32 {
    match code {
        Some(c) => c,
        None => 1,
    }
}

/// The exit code the launcher forwards for a finished child.
pub fn forwarded_exit_code(code: Option<i32>) -> (r: i32)
    ensures
        r == spec_forwarded_exit_code(code),
{
    match code {
        Some(c) => c,
        None => 1,
    }
}

} // verus!
