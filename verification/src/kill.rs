//! The command that stops an app by force: it sends the signal that cannot
//! be caught to the process id of the last launch.
//!
//! It does so only while the lock is held, and only if the record holds a
//! launch: without a recorded process id there is nothing safe to aim at.
//! The record is left as it is; whether the app still runs shows at the
//! next probe of the lock.

use vstd::prelude::*;
use crate::error::ErrorKind;
use crate::launch::{Invocation, InvocationView};
use crate::layout::{lock_file, lock_file_of, record_file, record_file_of};
use crate::liveness::{is_lock_held, lock_verdict};
use crate::protocol::{Action, ActionView, Event, EventView, RecordRead, RecordReadView};
use crate::run::pid_text;
use crate::session::{Session, SessionView, Stage};
use crate::text::{concat2, concat3, concat5, decimal, decimal_string};

verus! {

/// The program that sends signals.
pub const KILL_PROGRAM: &'static str = "kill";

/// The argument that picks the signal that cannot be caught or ignored.
pub const KILL_SIGNAL: &'static str = "-9";

/// The command line that kills the process `pid`.
pub open spec fn kill_command_of(pid: u32) -> InvocationView {
    InvocationView { program: KILL_PROGRAM@, args: seq![KILL_SIGNAL@, decimal(pid as nat)] }
}

/// The command line that kills the process `pid`.
pub fn kill_command(pid: u32) -> (command: Invocation)
    ensures
        command@ == kill_command_of(pid),
{
    Invocation::with_two(KILL_PROGRAM, KILL_SIGNAL.to_owned(), decimal_string(pid as u64))
}

/// The step of `kill` once the record is read.
pub open spec fn kill_loaded(s: SessionView) -> (SessionView, ActionView) {
    match s.record {
        Some(app) => match app.last_run {
            Some(last) => s.ask(
                Stage::Announce,
                ActionView::Print {
                    text: "force killing '"@ + s.name + "' (pid "@ + decimal(last.pid as nat)
                        + ")\n"@,
                },
            ),
            None => s.fail(
                ErrorKind::NoRecordedPid,
                "no pidfile found for '"@ + s.name + "'; cannot force kill safely"@,
            ),
        },
        None => s.stray(),
    }
}

/// The step of `kill`.
pub open spec fn kill_next(s: SessionView, event: EventView) -> (SessionView, ActionView) {
    let dir = s.dir();
    match (s.stage, event) {
        (Stage::Start, EventView::Begin) => s.ask(Stage::CheckDir, ActionView::Exists { path: dir }),
        (Stage::CheckDir, EventView::Exists(false)) => s.missing(),
        (Stage::CheckDir, EventView::Exists(true)) => s.ask(
            Stage::Probe,
            ActionView::ProbeLock { path: lock_file_of(dir) },
        ),
        (Stage::Probe, EventView::Lock(probe)) => match lock_verdict(dir, probe) {
            Err(e) => s.fail(e.kind, e.message),
            Ok(true) => s.ask(Stage::Load, ActionView::ReadRecord { path: record_file_of(dir) }),
            Ok(false) => s.not_running(),
        },
        (Stage::Load, EventView::Record(RecordReadView::Loaded(app))) => kill_loaded(
            SessionView { record: Some(app), ..s },
        ),
        (Stage::Load, EventView::Record(read)) => s.bad_record(read, false),
        (Stage::Announce, EventView::Done) => match s.record {
            Some(app) => match app.last_run {
                Some(last) => s.ask(
                    Stage::Act,
                    ActionView::Run { command: kill_command_of(last.pid) },
                ),
                None => s.stray(),
            },
            None => s.stray(),
        },
        (Stage::Act, EventView::Failed(why)) => s.fail(
            ErrorKind::SignalDeliveryFailed,
            "failed to run kill -9: "@ + why,
        ),
        (Stage::Act, EventView::Exited { success, status }) => if success {
            s.report_exit(status)
        } else {
            s.fail(
                ErrorKind::SignalDeliveryFailed,
                "kill -9 failed for pid "@ + pid_text(s.record, "-"@),
            )
        },
        (Stage::Report, EventView::Done) => s.succeed(),
        _ => s.stray(),
    }
}

impl Session {
    /// The process id of the last launch, if the record is read and holds
    /// one.
    pub(crate) fn last_pid(&self) -> (r: Option<u32>)
        ensures
            r == match self@.record {
                Some(app) => app.last_pid(),
                None => None,
            },
            self@.record is None ==> r is None,
    {
        match &self.record {
            Some(app) => app.last_pid(),
            None => None,
        }
    }
}

fn loaded(s: &mut Session) -> (a: Action)
    ensures
        (final(s)@, a@) == kill_loaded(old(s)@),
{
    if s.record.is_none() {
        return s.stray();
    }
    match s.last_pid() {
        Some(pid) => {
            let number = decimal_string(pid as u64);
            let text = concat5("force killing '", s.name.as_str(), "' (pid ", number.as_str(), ")\n");
            s.ask(Stage::Announce, Action::Print { text })
        },
        None => {
            let message = concat3(
                "no pidfile found for '",
                s.name.as_str(),
                "'; cannot force kill safely",
            );
            s.fail(ErrorKind::NoRecordedPid, message)
        },
    }
}

pub(crate) fn kill_step(s: &mut Session, event: Event) -> (action: Action)
    ensures
        (final(s)@, action@) == kill_next(old(s)@, event@),
{
    let dir = s.dir();
    match (s.stage, event) {
        (Stage::Start, Event::Begin) => s.ask(Stage::CheckDir, Action::Exists { path: dir }),
        (Stage::CheckDir, Event::Exists(false)) => s.missing(),
        (Stage::CheckDir, Event::Exists(true)) => s.ask(
            Stage::Probe,
            Action::ProbeLock { path: lock_file(dir.as_str()) },
        ),
        (Stage::Probe, Event::Lock(probe)) => match is_lock_held(dir.as_str(), &probe) {
            Err(e) => s.fail_with(e),
            Ok(true) => s.ask(Stage::Load, Action::ReadRecord { path: record_file(dir.as_str()) }),
            Ok(false) => s.not_running(),
        },
        (Stage::Load, Event::Record(RecordRead::Loaded(app))) => {
            s.record = Some(app);
            loaded(s)
        },
        (Stage::Load, Event::Record(read)) => s.bad_record(read, false),
        (Stage::Announce, Event::Done) => match s.last_pid() {
            Some(pid) => s.ask(Stage::Act, Action::Run { command: kill_command(pid) }),
            None => s.stray(),
        },
        (Stage::Act, Event::Failed(why)) => s.fail(
            ErrorKind::SignalDeliveryFailed,
            concat2("failed to run kill -9: ", why.as_str()),
        ),
        (Stage::Act, Event::Exited { success, status }) => {
            if success {
                s.report_exit(status.as_str())
            } else {
                let pid = s.pid_text("-");
                s.fail(
                    ErrorKind::SignalDeliveryFailed,
                    concat2("kill -9 failed for pid ", pid.as_str()),
                )
            }
        },
        (Stage::Report, Event::Done) => s.succeed(),
        _ => s.stray(),
    }
}

} // verus!
