//! The command that stops an app gracefully: it runs the app's stop script
//! with the caller's own input and output and waits for it. Unless forced
//! it does so only while the app is running.

use vstd::prelude::*;
use crate::error::ErrorKind;
use crate::launch::{Invocation, InvocationView};
use crate::layout::{lock_file, lock_file_of, stop_script, stop_script_of};
use crate::liveness::{is_lock_held, lock_verdict};
use crate::protocol::{Action, ActionView, Event, EventView};
use crate::session::{Session, SessionView, Stage};
use crate::text::{concat2, concat3};

verus! {

/// Go on to print that the app is being stopped.
pub open spec fn announce_stop(s: SessionView) -> (SessionView, ActionView) {
    s.ask(Stage::Announce, ActionView::Print { text: "stopped '"@ + s.name + "'\n"@ })
}

/// The step of `stop`.
pub open spec fn stop_next(s: SessionView, force: bool, event: EventView) -> (
    SessionView,
    ActionView,
) {
    let dir = s.dir();
    match (s.stage, event) {
        (Stage::Start, EventView::Begin) => s.ask(Stage::CheckDir, ActionView::Exists { path: dir }),
        (Stage::CheckDir, EventView::Exists(false)) => s.missing(),
        (Stage::CheckDir, EventView::Exists(true)) => s.ask(
            Stage::CheckScript,
            ActionView::Exists { path: stop_script_of(dir) },
        ),
        (Stage::CheckScript, EventView::Exists(false)) => s.missing_script(stop_script_of(dir)),
        (Stage::CheckScript, EventView::Exists(true)) => if force {
            announce_stop(s)
        } else {
            s.ask(Stage::Probe, ActionView::ProbeLock { path: lock_file_of(dir) })
        },
        (Stage::Probe, EventView::Lock(probe)) => match lock_verdict(dir, probe) {
            Err(e) => s.fail(e.kind, e.message),
            Ok(true) => announce_stop(s),
            Ok(false) => s.not_running(),
        },
        (Stage::Announce, EventView::Done) => s.ask(
            Stage::Act,
            ActionView::Run {
                command: InvocationView { program: stop_script_of(dir), args: seq![] },
            },
        ),
        (Stage::Act, EventView::Failed(why)) => s.fail(
            ErrorKind::ChildLaunchFailed,
            "failed to run: "@ + why,
        ),
        (Stage::Act, EventView::Exited { success, status }) => if success {
            s.report_exit(status)
        } else {
            s.fail(ErrorKind::ScriptExitNonZero, "stop.sh failed for app '"@ + s.name + "'"@)
        },
        (Stage::Report, EventView::Done) => s.succeed(),
        _ => s.stray(),
    }
}

fn announce(s: &mut Session) -> (a: Action)
    ensures
        (final(s)@, a@) == announce_stop(old(s)@),
{
    let text = concat3("stopped '", s.name.as_str(), "'\n");
    s.ask(Stage::Announce, Action::Print { text })
}

pub(crate) fn stop_step(s: &mut Session, force: bool, event: Event) -> (action: Action)
    ensures
        (final(s)@, action@) == stop_next(old(s)@, force, event@),
{
    let dir = s.dir();
    match (s.stage, event) {
        (Stage::Start, Event::Begin) => s.ask(Stage::CheckDir, Action::Exists { path: dir }),
        (Stage::CheckDir, Event::Exists(false)) => s.missing(),
        (Stage::CheckDir, Event::Exists(true)) => s.ask(
            Stage::CheckScript,
            Action::Exists { path: stop_script(dir.as_str()) },
        ),
        (Stage::CheckScript, Event::Exists(false)) => {
            let script = stop_script(dir.as_str());
            s.missing_script(script.as_str())
        },
        (Stage::CheckScript, Event::Exists(true)) => {
            if force {
                announce(s)
            } else {
                s.ask(Stage::Probe, Action::ProbeLock { path: lock_file(dir.as_str()) })
            }
        },
        (Stage::Probe, Event::Lock(probe)) => match is_lock_held(dir.as_str(), &probe) {
            Err(e) => s.fail_with(e),
            Ok(true) => announce(s),
            Ok(false) => s.not_running(),
        },
        (Stage::Announce, Event::Done) => s.ask(
            Stage::Act,
            Action::Run { command: Invocation::bare(stop_script(dir.as_str())) },
        ),
        (Stage::Act, Event::Failed(why)) => s.fail(
            ErrorKind::ChildLaunchFailed,
            concat2("failed to run: ", why.as_str()),
        ),
        (Stage::Act, Event::Exited { success, status }) => {
            if success {
                s.report_exit(status.as_str())
            } else {
                let message = concat3("stop.sh failed for app '", s.name.as_str(), "'");
                s.fail(ErrorKind::ScriptExitNonZero, message)
            }
        },
        (Stage::Report, Event::Done) => s.succeed(),
        _ => s.stray(),
    }
}

} // verus!
