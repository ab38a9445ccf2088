//! The command that launches an app.
//!
//! Before the launch the lock is probed, and a held lock ends the command:
//! an app runs at most once. The probe cannot close the gap between itself
//! and the launch; the wrapper that is launched tries the lock again and
//! has the last word. After the launch the record is brought up to date and
//! written back before the command reports success.

use vstd::prelude::*;
use crate::app::AppView;
use crate::error::ErrorKind;
use crate::launch::{launch_plan, launch_plan_of};
use crate::layout::{
    lock_file,
    lock_file_of,
    record_file,
    record_file_of,
    start_script,
    start_script_of,
};
use crate::liveness::{is_lock_held, lock_verdict};
use crate::protocol::{
    Action,
    ActionView,
    Event,
    EventView,
    LaunchOutcome,
    LaunchOutcomeView,
    RecordRead,
    RecordReadView,
};
use crate::session::{Session, SessionView, Stage};
use crate::text::{
    concat2,
    concat3,
    concat5,
    debug_form,
    decimal,
    decimal_string,
    quoted_path,
    shown_time,
    shown_time_text,
};

verus! {

/// The process id of the last launch in base ten, or `absent` where the
/// record holds none.
pub open spec fn pid_text(record: Option<AppView>, absent: Seq<char>) -> Seq<char> {
    match record {
        Some(app) => match app.last_run {
            Some(last) => decimal(last.pid as nat),
            None => absent,
        },
        None => absent,
    }
}

/// Whether one more launch can be counted in the record.
pub open spec fn can_count(record: Option<AppView>) -> bool {
    match record {
        Some(app) => app.num_runs < u64::MAX,
        None => false,
    }
}

/// The message for an app that is running already.
pub open spec fn already_running_text(name: Seq<char>, record: Option<AppView>) -> Seq<char> {
    "app '"@ + name + "' is already running (pid: "@ + pid_text(record, "None"@) + ")"@
}

/// The message for a record whose counter cannot grow.
pub open spec fn exhausted_text(name: Seq<char>) -> Seq<char> {
    "run counter of '"@ + name + "' cannot grow any further"@
}

/// What is printed after a launch.
pub open spec fn started_text(name: Seq<char>, pid: u32, time: Seq<char>) -> Seq<char> {
    "started '"@ + name + "'\npid: "@ + decimal(pid as nat) + "\nstarted at: "@ + (shown_time_text(
        time,
    ) + "\n"@)
}

/// The step of `run` after the record was written: go on to print what
/// was launched.
pub open spec fn announce_next(s: SessionView) -> (SessionView, ActionView) {
    match s.record {
        Some(app) => match app.last_run {
            Some(last) => s.ask(
                Stage::Report,
                ActionView::Print { text: started_text(s.name, last.pid, last.time) },
            ),
            None => s.stray(),
        },
        None => s.stray(),
    }
}

/// The step of `run` after the launch was tried: on success the record is
/// brought up to date and is to be written back.
pub open spec fn launched_next(s: SessionView, outcome: LaunchOutcomeView, now: Seq<char>) -> (
    SessionView,
    ActionView,
) {
    match outcome {
        LaunchOutcomeView::Started(pid) => match s.record {
            Some(app) => if app.num_runs < u64::MAX {
                (SessionView { record: Some(app.launched(now, pid)), ..s }).ask(
                    Stage::WriteRecord,
                    ActionView::SaveRecord {
                        path: record_file_of(s.dir()),
                        record: app.launched(now, pid),
                    },
                )
            } else {
                s.stray()
            },
            None => s.stray(),
        },
        LaunchOutcomeView::LogDirFailed(why) => s.no_log_dir(why),
        LaunchOutcomeView::StdoutFailed(why) => s.fail(
            ErrorKind::IOError,
            "failed to open stdout log: "@ + why,
        ),
        LaunchOutcomeView::StderrFailed(why) => s.fail(
            ErrorKind::IOError,
            "failed to open stderr log: "@ + why,
        ),
        LaunchOutcomeView::SpawnFailed(why) => s.fail(
            ErrorKind::ChildLaunchFailed,
            "failed to spawn bash wrapper: "@ + why,
        ),
    }
}

/// The step of `run`.
pub open spec fn run_next(s: SessionView, event: EventView, now: Seq<char>) -> (
    SessionView,
    ActionView,
) {
    let dir = s.dir();
    match (s.stage, event) {
        (Stage::Start, EventView::Begin) => s.ask(Stage::CheckDir, ActionView::Exists { path: dir }),
        (Stage::CheckDir, EventView::Exists(false)) => s.missing(),
        (Stage::CheckDir, EventView::Exists(true)) => s.ask(
            Stage::CheckScript,
            ActionView::Exists { path: start_script_of(dir) },
        ),
        (Stage::CheckScript, EventView::Exists(false)) => s.missing_script(start_script_of(dir)),
        (Stage::CheckScript, EventView::Exists(true)) => s.ask(
            Stage::Load,
            ActionView::ReadRecord { path: record_file_of(dir) },
        ),
        (Stage::Load, EventView::Record(RecordReadView::Loaded(app))) => (SessionView {
            record: Some(app),
            ..s
        }).ask(Stage::Probe, ActionView::ProbeLock { path: lock_file_of(dir) }),
        (Stage::Load, EventView::Record(read)) => s.bad_record(read, false),
        (Stage::Probe, EventView::Lock(probe)) => match lock_verdict(dir, probe) {
            Err(e) => s.fail(e.kind, e.message),
            Ok(true) => s.fail(ErrorKind::AlreadyRunning, already_running_text(s.name, s.record)),
            Ok(false) => if can_count(s.record) {
                s.ask(
                    Stage::Launch,
                    ActionView::Launch { plan: launch_plan_of(start_script_of(dir), dir) },
                )
            } else {
                s.fail(ErrorKind::CorruptState, exhausted_text(s.name))
            },
        },
        (Stage::Launch, EventView::Launched(outcome)) => launched_next(s, outcome, now),
        (Stage::WriteRecord, EventView::Failed(_)) => s.fail(
            ErrorKind::IOError,
            "Something went wrong while writing to "@ + debug_form(record_file_of(dir)) + "."@,
        ),
        (Stage::WriteRecord, EventView::Done) => announce_next(s),
        (Stage::Report, EventView::Done) => s.succeed(),
        _ => s.stray(),
    }
}

impl Session {
    /// The process id of the last launch in base ten, or `absent`.
    pub(crate) fn pid_text(&self, absent: &str) -> (r: String)
        ensures
            r@ == pid_text(self@.record, absent@),
    {
        match &self.record {
            Some(app) => match app.last_pid() {
                Some(pid) => decimal_string(pid as u64),
                None => absent.to_owned(),
            },
            None => absent.to_owned(),
        }
    }

    /// Whether one more launch can be counted in the record.
    pub(crate) fn can_count(&self) -> (r: bool)
        ensures
            r == can_count(self@.record),
    {
        match &self.record {
            Some(app) => app.can_count_launch(),
            None => false,
        }
    }
}

fn started_line(name: &str, pid: u32, time: &str) -> (text: String)
    ensures
        text@ == started_text(name@, pid, time@),
{
    let number = decimal_string(pid as u64);
    let shown = shown_time(time);
    let tail = concat2(shown.as_str(), "\n");
    let head = concat5("started '", name, "'\npid: ", number.as_str(), "\nstarted at: ");
    concat2(head.as_str(), tail.as_str())
}

fn announce(s: &mut Session) -> (action: Action)
    ensures
        (final(s)@, action@) == announce_next(old(s)@),
{
    let text = match &s.record {
        Some(app) => match &app.last_run {
            Some(last) => Some(started_line(s.name.as_str(), last.pid, last.time.as_str())),
            None => None,
        },
        None => None,
    };
    match text {
        Some(text) => s.ask(Stage::Report, Action::Print { text }),
        None => s.stray(),
    }
}

fn launched_step(s: &mut Session, outcome: LaunchOutcome, now: &str) -> (action: Action)
    ensures
        (final(s)@, action@) == launched_next(old(s)@, outcome@, now@),
{
    match outcome {
        LaunchOutcome::Started(pid) => {
            if s.can_count() {
                let mut record = s.record.take().unwrap();
                record.record_launch(now.to_owned(), pid);
                let copy = record.duplicate();
                s.record = Some(record);
                let dir = s.dir();
                s.ask(
                    Stage::WriteRecord,
                    Action::SaveRecord { path: record_file(dir.as_str()), record: copy },
                )
            } else {
                s.stray()
            }
        },
        LaunchOutcome::LogDirFailed(why) => s.no_log_dir(why.as_str()),
        LaunchOutcome::StdoutFailed(why) => s.fail(
            ErrorKind::IOError,
            concat2("failed to open stdout log: ", why.as_str()),
        ),
        LaunchOutcome::StderrFailed(why) => s.fail(
            ErrorKind::IOError,
            concat2("failed to open stderr log: ", why.as_str()),
        ),
        LaunchOutcome::SpawnFailed(why) => s.fail(
            ErrorKind::ChildLaunchFailed,
            concat2("failed to spawn bash wrapper: ", why.as_str()),
        ),
    }
}

pub(crate) fn run_step(s: &mut Session, event: Event, now: &str) -> (action: Action)
    ensures
        (final(s)@, action@) == run_next(old(s)@, event@, now@),
{
    let dir = s.dir();
    match (s.stage, event) {
        (Stage::Start, Event::Begin) => s.ask(Stage::CheckDir, Action::Exists { path: dir }),
        (Stage::CheckDir, Event::Exists(false)) => s.missing(),
        (Stage::CheckDir, Event::Exists(true)) => s.ask(
            Stage::CheckScript,
            Action::Exists { path: start_script(dir.as_str()) },
        ),
        (Stage::CheckScript, Event::Exists(false)) => {
            let script = start_script(dir.as_str());
            s.missing_script(script.as_str())
        },
        (Stage::CheckScript, Event::Exists(true)) => s.ask(
            Stage::Load,
            Action::ReadRecord { path: record_file(dir.as_str()) },
        ),
        (Stage::Load, Event::Record(RecordRead::Loaded(app))) => {
            s.record = Some(app);
            s.ask(Stage::Probe, Action::ProbeLock { path: lock_file(dir.as_str()) })
        },
        (Stage::Load, Event::Record(read)) => s.bad_record(read, false),
        (Stage::Probe, Event::Lock(probe)) => match is_lock_held(dir.as_str(), &probe) {
            Err(e) => s.fail_with(e),
            Ok(true) => {
                let pid = s.pid_text("None");
                let message = concat5(
                    "app '",
                    s.name.as_str(),
                    "' is already running (pid: ",
                    pid.as_str(),
                    ")",
                );
                s.fail(ErrorKind::AlreadyRunning, message)
            },
            Ok(false) => {
                if s.can_count() {
                    let script = start_script(dir.as_str());
                    let plan = launch_plan(script.as_str(), dir.as_str());
                    s.ask(Stage::Launch, Action::Launch { plan })
                } else {
                    let message = concat3(
                        "run counter of '",
                        s.name.as_str(),
                        "' cannot grow any further",
                    );
                    s.fail(ErrorKind::CorruptState, message)
                }
            },
        },
        (Stage::Launch, Event::Launched(outcome)) => launched_step(s, outcome, now),
        (Stage::WriteRecord, Event::Failed(_)) => {
            let path = record_file(dir.as_str());
            let shown = quoted_path(path.as_str());
            s.fail(
                ErrorKind::IOError,
                concat3("Something went wrong while writing to ", shown.as_str(), "."),
            )
        },
        (Stage::WriteRecord, Event::Done) => announce(s),
        (Stage::Report, Event::Done) => s.succeed(),
        _ => s.stray(),
    }
}

} // verus!
