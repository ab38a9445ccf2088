//! How an app is launched, and what its scripts hold when it is created.
//!
//! A launch is detached: the caller gets a process id back at once. What is
//! started is not the start script itself but a small shell wrapper that
//! first takes the advisory lock on `app.lock` without blocking. If the
//! lock is taken the wrapper complains and exits with a failure, which
//! turns away a launch that raced another one. Otherwise it replaces itself
//! with the start script, which inherits the lock and holds it for as long
//! as it lives.

use vstd::prelude::*;
use crate::layout::{
    lock_file,
    lock_file_of,
    log_dir,
    log_dir_of,
    log_paths,
    stderr_log_of,
    stdout_log_of,
};
use crate::text::{concat3, concat5, replace_char, replaced};

verus! {

/// The shell that runs the wrapper.
pub const SHELL: &'static str = "bash";

/// The flag that hands the shell its script as an argument.
pub const SHELL_COMMAND_FLAG: &'static str = "-c";

/// Permission bits of a freshly written script: `rwxr-xr-x`.
pub const SCRIPT_MODE: u32 = 0o755;

/// A program and its arguments.
#[derive(Debug)]
pub struct Invocation {
    pub program: String,
    pub args: Vec<String>,
}

/// Mathematical content of an [`Invocation`].
pub struct InvocationView {
    pub program: Seq<char>,
    pub args: Seq<Seq<char>>,
}

/// The texts of a list of strings.
pub open spec fn texts(list: Seq<String>) -> Seq<Seq<char>> {
    list.map_values(|s: String| s@)
}

impl View for Invocation {
    type V = InvocationView;

    open spec fn view(&self) -> InvocationView {
        InvocationView { program: self.program@, args: texts(self.args@) }
    }
}

impl Invocation {
    /// A program without arguments.
    pub fn bare(program: String) -> (r: Invocation)
        ensures
            r@ == (InvocationView { program: program@, args: seq![] }),
    {
        let r = Invocation { program, args: Vec::new() };
        assert(r@.args =~= seq![]);
        r
    }

    /// A program with two arguments.
    pub fn with_two(program: &str, first: String, second: String) -> (r: Invocation)
        ensures
            r@ == (InvocationView { program: program@, args: seq![first@, second@] }),
    {
        let mut args: Vec<String> = Vec::new();
        args.push(first);
        args.push(second);
        let r = Invocation { program: program.to_owned(), args };
        assert(r@.args =~= seq![first@, second@]);
        r
    }
}

/// What a new start or stop script holds: a shell script that greets with
/// the app's name. A single quote in the name is written as a backquote,
/// so that the name cannot end the quoted greeting.
pub open spec fn script_body_text(name: Seq<char>) -> Seq<char> {
    "#!/bin/sh\nset -e\nexec echo 'hello from "@ + replaced(name, '\'', '`') + "'\n"@
}

/// The content of a new start or stop script for the app `name`.
pub fn script_body(name: &str) -> (body: String)
    ensures
        body@ == script_body_text(name@),
{
    let safe = replace_char(name, '\'', '`');
    concat3("#!/bin/sh\nset -e\nexec echo 'hello from ", safe.as_str(), "'\n")
}

/// The shell text of the wrapper: open the lock file on descriptor 9, try
/// the lock without waiting, give up with a message where it is taken,
/// else become the start script.
pub open spec fn wrapper_text(lock: Seq<char>, script: Seq<char>) -> Seq<char> {
    "\n        set -e\n        exec 9>\""@ + lock
        + "\"\n        if ! flock -n 9; then\n            echo \"app already running\" >&2\n            exit 1\n        fi\n        exec \""@
        + script + "\"\n        "@
}

/// The shell text of the wrapper for the given lock file and start script.
pub fn wrapper_command(lock: &str, script: &str) -> (command: String)
    ensures
        command@ == wrapper_text(lock@, script@),
{
    concat5(
        "\n        set -e\n        exec 9>\"",
        lock,
        "\"\n        if ! flock -n 9; then\n            echo \"app already running\" >&2\n            exit 1\n        fi\n        exec \"",
        script,
        "\"\n        ",
    )
}

/// All that a detached launch needs: the log directory to make, the two
/// log files to open afresh, and the command to start with its input
/// closed and its output sent to those files.
#[derive(Debug)]
pub struct LaunchPlan {
    /// Directory to create if it is not there.
    pub log_dir: String,
    /// File that receives standard output, emptied first.
    pub stdout_log: String,
    /// File that receives standard error, emptied first.
    pub stderr_log: String,
    /// The lock file that the wrapper tries to take.
    pub lock_file: String,
    /// The script that the wrapper becomes once it has the lock.
    pub script: String,
    /// The wrapper to start.
    pub command: Invocation,
}

/// Mathematical content of a [`LaunchPlan`].
pub struct LaunchPlanView {
    pub log_dir: Seq<char>,
    pub stdout_log: Seq<char>,
    pub stderr_log: Seq<char>,
    pub lock_file: Seq<char>,
    pub script: Seq<char>,
    pub command: InvocationView,
}

impl View for LaunchPlan {
    type V = LaunchPlanView;

    open spec fn view(&self) -> LaunchPlanView {
        LaunchPlanView {
            log_dir: self.log_dir@,
            stdout_log: self.stdout_log@,
            stderr_log: self.stderr_log@,
            lock_file: self.lock_file@,
            script: self.script@,
            command: self.command@,
        }
    }
}

/// The plan for launching `script` as the app in `app_dir`.
pub open spec fn launch_plan_of(script: Seq<char>, app_dir: Seq<char>) -> LaunchPlanView {
    LaunchPlanView {
        log_dir: log_dir_of(app_dir),
        stdout_log: stdout_log_of(app_dir),
        stderr_log: stderr_log_of(app_dir),
        lock_file: lock_file_of(app_dir),
        script,
        command: InvocationView {
            program: SHELL@,
            args: seq![SHELL_COMMAND_FLAG@, wrapper_text(lock_file_of(app_dir), script)],
        },
    }
}

/// Plans the detached launch of `script` as the app in `app_dir`.
pub fn launch_plan(script: &str, app_dir: &str) -> (plan: LaunchPlan)
    ensures
        plan@ == launch_plan_of(script@, app_dir@),
{
    let logs = log_paths(app_dir);
    let lock = lock_file(app_dir);
    let command = Invocation::with_two(
        SHELL,
        SHELL_COMMAND_FLAG.to_owned(),
        wrapper_command(lock.as_str(), script),
    );
    LaunchPlan {
        log_dir: log_dir(app_dir),
        stdout_log: logs.stdout,
        stderr_log: logs.stderr,
        lock_file: lock,
        script: script.to_owned(),
        command,
    }
}

} // verus!
