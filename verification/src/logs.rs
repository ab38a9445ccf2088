//! The commands on the logs of an app: emptying them and showing them.
//!
//! Both make the log directory if it is not there. A log that does not
//! exist is nothing to empty, and that is no failure; it is nothing to show
//! either, and that is one. Following a log hands the terminal to `tail`
//! until the user interrupts it.

use vstd::prelude::*;
use crate::error::ErrorKind;
use crate::launch::{Invocation, InvocationView};
use crate::layout::{log_dir, log_dir_of, log_paths, stderr_log_of, stdout_log_of};
use crate::protocol::{Action, ActionView, Event, EventView};
use crate::session::{Session, SessionView, Stage};
use crate::text::{concat2, concat4, debug_form, quoted_path};

verus! {

/// The program that follows a file.
pub const FOLLOW_PROGRAM: &'static str = "tail";

/// The argument that makes it keep following.
pub const FOLLOW_FLAG: &'static str = "-f";

/// What is printed when a log is cleared; `stream` names the log.
pub open spec fn cleared_text(stream: Seq<char>, name: Seq<char>) -> Seq<char> {
    stream + " logs cleared for '"@ + name + "'\n"@
}

/// The message for a log that could not be emptied.
pub open spec fn clear_failed_text(path: Seq<char>, why: Seq<char>) -> Seq<char> {
    "failed to clear "@ + debug_form(path) + ": "@ + why
}

/// Turn to the log of standard error, the last of the two.
pub open spec fn clear_stderr_phase(s: SessionView, stderr: bool) -> (SessionView, ActionView) {
    if stderr {
        s.ask(Stage::CheckStderr, ActionView::Exists { path: stderr_log_of(s.dir()) })
    } else {
        s.succeed()
    }
}

/// Turn to the log of standard output, the first of the two.
pub open spec fn clear_stdout_phase(s: SessionView, stdout: bool, stderr: bool) -> (
    SessionView,
    ActionView,
) {
    if stdout {
        s.ask(Stage::CheckStdout, ActionView::Exists { path: stdout_log_of(s.dir()) })
    } else {
        clear_stderr_phase(s, stderr)
    }
}

/// The step of clearing logs.
pub open spec fn clear_next(s: SessionView, stdout: bool, stderr: bool, event: EventView) -> (
    SessionView,
    ActionView,
) {
    let dir = s.dir();
    match (s.stage, event) {
        (Stage::Start, EventView::Begin) => s.ask(Stage::CheckDir, ActionView::Exists { path: dir }),
        (Stage::CheckDir, EventView::Exists(false)) => s.missing(),
        (Stage::CheckDir, EventView::Exists(true)) => s.ask(
            Stage::MakeLogDir,
            ActionView::CreateDir { path: log_dir_of(dir) },
        ),
        (Stage::MakeLogDir, EventView::Failed(why)) => s.no_log_dir(why),
        (Stage::MakeLogDir, EventView::Done) => clear_stdout_phase(s, stdout, stderr),
        (Stage::CheckStdout, EventView::Exists(true)) => s.ask(
            Stage::TruncStdout,
            ActionView::Truncate { path: stdout_log_of(dir) },
        ),
        (Stage::CheckStdout, EventView::Exists(false)) => s.ask(
            Stage::SayStdout,
            ActionView::Print { text: cleared_text("stdout"@, s.name) },
        ),
        (Stage::TruncStdout, EventView::Failed(why)) => s.fail(
            ErrorKind::IOError,
            clear_failed_text(stdout_log_of(dir), why),
        ),
        (Stage::TruncStdout, EventView::Done) => s.ask(
            Stage::SayStdout,
            ActionView::Print { text: cleared_text("stdout"@, s.name) },
        ),
        (Stage::SayStdout, EventView::Done) => clear_stderr_phase(s, stderr),
        (Stage::CheckStderr, EventView::Exists(true)) => s.ask(
            Stage::TruncStderr,
            ActionView::Truncate { path: stderr_log_of(dir) },
        ),
        (Stage::CheckStderr, EventView::Exists(false)) => s.ask(
            Stage::SayStderr,
            ActionView::Print { text: cleared_text("stderr"@, s.name) },
        ),
        (Stage::TruncStderr, EventView::Failed(why)) => s.fail(
            ErrorKind::IOError,
            clear_failed_text(stderr_log_of(dir), why),
        ),
        (Stage::TruncStderr, EventView::Done) => s.ask(
            Stage::SayStderr,
            ActionView::Print { text: cleared_text("stderr"@, s.name) },
        ),
        (Stage::SayStderr, EventView::Done) => s.succeed(),
        _ => s.stray(),
    }
}

/// The log that is shown.
pub open spec fn shown_log_of(dir: Seq<char>, stderr: bool) -> Seq<char> {
    if stderr {
        stderr_log_of(dir)
    } else {
        stdout_log_of(dir)
    }
}

/// The command line that follows the file `path`.
pub open spec fn follow_command_of(path: Seq<char>) -> InvocationView {
    InvocationView { program: FOLLOW_PROGRAM@, args: seq![FOLLOW_FLAG@, path] }
}

/// The step of showing a log.
pub open spec fn show_next(s: SessionView, stderr: bool, follow: bool, event: EventView) -> (
    SessionView,
    ActionView,
) {
    let dir = s.dir();
    let log = shown_log_of(dir, stderr);
    match (s.stage, event) {
        (Stage::Start, EventView::Begin) => s.ask(Stage::CheckDir, ActionView::Exists { path: dir }),
        (Stage::CheckDir, EventView::Exists(false)) => s.missing(),
        (Stage::CheckDir, EventView::Exists(true)) => s.ask(
            Stage::MakeLogDir,
            ActionView::CreateDir { path: log_dir_of(dir) },
        ),
        (Stage::MakeLogDir, EventView::Failed(why)) => s.no_log_dir(why),
        (Stage::MakeLogDir, EventView::Done) => s.ask(
            Stage::CheckLog,
            ActionView::Exists { path: log },
        ),
        (Stage::CheckLog, EventView::Exists(false)) => s.fail(
            ErrorKind::NotFound,
            "no logs found (app may not have been run yet)"@,
        ),
        (Stage::CheckLog, EventView::Exists(true)) => if follow {
            s.ask(Stage::Act, ActionView::Run { command: follow_command_of(log) })
        } else {
            s.ask(Stage::Act, ActionView::ReadText { path: log })
        },
        (Stage::Act, EventView::Failed(why)) => if follow {
            s.fail(ErrorKind::ChildLaunchFailed, "failed to follow log: "@ + why)
        } else {
            s.fail(ErrorKind::IOError, "failed to read log: "@ + why)
        },
        (Stage::Act, EventView::Exited { success, status }) => if follow {
            s.report_exit(status)
        } else {
            s.stray()
        },
        (Stage::Act, EventView::Text(content)) => if follow {
            s.stray()
        } else {
            s.ask(Stage::Report, ActionView::Print { text: content })
        },
        (Stage::Report, EventView::Done) => s.succeed(),
        _ => s.stray(),
    }
}

/// The command line that follows the file `path`.
pub fn follow_command(path: String) -> (command: Invocation)
    ensures
        command@ == follow_command_of(path@),
{
    Invocation::with_two(FOLLOW_PROGRAM, FOLLOW_FLAG.to_owned(), path)
}

fn stdout_log(dir: &str) -> (path: String)
    ensures
        path@ == stdout_log_of(dir@),
{
    log_paths(dir).stdout
}

fn stderr_log(dir: &str) -> (path: String)
    ensures
        path@ == stderr_log_of(dir@),
{
    log_paths(dir).stderr
}

fn shown_log(dir: &str, stderr: bool) -> (path: String)
    ensures
        path@ == shown_log_of(dir@, stderr),
{
    if stderr {
        stderr_log(dir)
    } else {
        stdout_log(dir)
    }
}

fn say_cleared(s: &mut Session, stage: Stage, stream: &str) -> (a: Action)
    ensures
        (final(s)@, a@) == old(s)@.ask(
            stage,
            ActionView::Print { text: cleared_text(stream@, old(s)@.name) },
        ),
{
    let text = concat4(stream, " logs cleared for '", s.name.as_str(), "'\n");
    s.ask(stage, Action::Print { text })
}

fn clear_failed(s: &mut Session, path: &str, why: &str) -> (a: Action)
    ensures
        (final(s)@, a@) == old(s)@.fail(ErrorKind::IOError, clear_failed_text(path@, why@)),
{
    let shown = quoted_path(path);
    s.fail(ErrorKind::IOError, concat4("failed to clear ", shown.as_str(), ": ", why))
}

fn stderr_phase(s: &mut Session, stderr: bool) -> (a: Action)
    ensures
        (final(s)@, a@) == clear_stderr_phase(old(s)@, stderr),
{
    if stderr {
        let dir = s.dir();
        s.ask(Stage::CheckStderr, Action::Exists { path: stderr_log(dir.as_str()) })
    } else {
        s.succeed()
    }
}

fn stdout_phase(s: &mut Session, stdout: bool, stderr: bool) -> (a: Action)
    ensures
        (final(s)@, a@) == clear_stdout_phase(old(s)@, stdout, stderr),
{
    if stdout {
        let dir = s.dir();
        s.ask(Stage::CheckStdout, Action::Exists { path: stdout_log(dir.as_str()) })
    } else {
        stderr_phase(s, stderr)
    }
}

pub(crate) fn clear_step(s: &mut Session, stdout: bool, stderr: bool, event: Event) -> (action:
    Action)
    ensures
        (final(s)@, action@) == clear_next(old(s)@, stdout, stderr, event@),
{
    let dir = s.dir();
    match (s.stage, event) {
        (Stage::Start, Event::Begin) => s.ask(Stage::CheckDir, Action::Exists { path: dir }),
        (Stage::CheckDir, Event::Exists(false)) => s.missing(),
        (Stage::CheckDir, Event::Exists(true)) => s.ask(
            Stage::MakeLogDir,
            Action::CreateDir { path: log_dir(dir.as_str()) },
        ),
        (Stage::MakeLogDir, Event::Failed(why)) => s.no_log_dir(why.as_str()),
        (Stage::MakeLogDir, Event::Done) => stdout_phase(s, stdout, stderr),
        (Stage::CheckStdout, Event::Exists(true)) => s.ask(
            Stage::TruncStdout,
            Action::Truncate { path: stdout_log(dir.as_str()) },
        ),
        (Stage::CheckStdout, Event::Exists(false)) => say_cleared(s, Stage::SayStdout, "stdout"),
        (Stage::TruncStdout, Event::Failed(why)) => {
            let path = stdout_log(dir.as_str());
            clear_failed(s, path.as_str(), why.as_str())
        },
        (Stage::TruncStdout, Event::Done) => say_cleared(s, Stage::SayStdout, "stdout"),
        (Stage::SayStdout, Event::Done) => stderr_phase(s, stderr),
        (Stage::CheckStderr, Event::Exists(true)) => s.ask(
            Stage::TruncStderr,
            Action::Truncate { path: stderr_log(dir.as_str()) },
        ),
        (Stage::CheckStderr, Event::Exists(false)) => say_cleared(s, Stage::SayStderr, "stderr"),
        (Stage::TruncStderr, Event::Failed(why)) => {
            let path = stderr_log(dir.as_str());
            clear_failed(s, path.as_str(), why.as_str())
        },
        (Stage::TruncStderr, Event::Done) => say_cleared(s, Stage::SayStderr, "stderr"),
        (Stage::SayStderr, Event::Done) => s.succeed(),
        _ => s.stray(),
    }
}

pub(crate) fn show_step(s: &mut Session, stderr: bool, follow: bool, event: Event) -> (action:
    Action)
    ensures
        (final(s)@, action@) == show_next(old(s)@, stderr, follow, event@),
{
    let dir = s.dir();
    match (s.stage, event) {
        (Stage::Start, Event::Begin) => s.ask(Stage::CheckDir, Action::Exists { path: dir }),
        (Stage::CheckDir, Event::Exists(false)) => s.missing(),
        (Stage::CheckDir, Event::Exists(true)) => s.ask(
            Stage::MakeLogDir,
            Action::CreateDir { path: log_dir(dir.as_str()) },
        ),
        (Stage::MakeLogDir, Event::Failed(why)) => s.no_log_dir(why.as_str()),
        (Stage::MakeLogDir, Event::Done) => s.ask(
            Stage::CheckLog,
            Action::Exists { path: shown_log(dir.as_str(), stderr) },
        ),
        (Stage::CheckLog, Event::Exists(false)) => s.fail(
            ErrorKind::NotFound,
            "no logs found (app may not have been run yet)".to_owned(),
        ),
        (Stage::CheckLog, Event::Exists(true)) => {
            let log = shown_log(dir.as_str(), stderr);
            if follow {
                s.ask(Stage::Act, Action::Run { command: follow_command(log) })
            } else {
                s.ask(Stage::Act, Action::ReadText { path: log })
            }
        },
        (Stage::Act, Event::Failed(why)) => {
            if follow {
                s.fail(
                    ErrorKind::ChildLaunchFailed,
                    concat2("failed to follow log: ", why.as_str()),
                )
            } else {
                s.fail(ErrorKind::IOError, concat2("failed to read log: ", why.as_str()))
            }
        },
        (Stage::Act, Event::Exited { success, status }) => {
            if follow {
                s.report_exit(status.as_str())
            } else {
                s.stray()
            }
        },
        (Stage::Act, Event::Text(content)) => {
            if follow {
                s.stray()
            } else {
                s.ask(Stage::Report, Action::Print { text: content })
            }
        },
        (Stage::Report, Event::Done) => s.succeed(),
        _ => s.stray(),
    }
}

} // verus!
