//! One command on one app, as a conversation.
//!
//! A [`Session`] is made for a command and an app name. It is then stepped:
//! each step takes the answer to the action named last and names the next
//! action, until [`Action::Finish`]. What a step does is a function of the
//! session, the answer and, where a timestamp is written, the time: the
//! function [`SessionView::next`].

use vstd::prelude::*;
use crate::app::{App, AppView};
use crate::clock::{now_rfc3339, reads_as_time};
use crate::create::{create_next, create_step};
use crate::error::{Error, ErrorKind, ErrorView};
use crate::delete::{delete_next, delete_step};
use crate::kill::{kill_next, kill_step};
use crate::layout::{app_dir, app_dir_of, log_dir, log_dir_of, record_file, record_file_of};
use crate::listing::{count_next, count_step, list_next, list_step, ps_next, ps_step};
use crate::logs::{clear_next, clear_step, show_next, show_step};
use crate::protocol::{Action, ActionView, Event, EventView, RecordRead, RecordReadView};
use crate::run::{run_next, run_step};
use crate::status::{status_next, status_step};
use crate::stop::{stop_next, stop_step};
use crate::text::{concat2, concat3, concat4, concat5, debug_form, line_text, quoted_path};

verus! {

/// The commands that work on one app.
#[derive(Clone, Copy, PartialEq, Eq, Structural, Debug)]
pub enum Command {
    /// Make the app: its directory, its two scripts and its record.
    Create,
    /// Launch the app, detached.
    Run,
    /// Show what is known about the app.
    Status,
    /// Run the app's stop script; with `force`, also when the app does not
    /// seem to be running.
    Stop { force: bool },
    /// Send the kill signal to the process of the last launch.
    Kill,
    /// Remove the app with all its files.
    Delete,
    /// Empty the chosen logs.
    ClearLogs { stdout: bool, stderr: bool },
    /// Show one log, the log of standard error where `stderr` is set; with
    /// `follow`, keep showing what is appended.
    ShowLogs { stderr: bool, follow: bool },
    /// Show one entry of the base directory in the list of apps: by its
    /// name alone, or with `long` by a line of columns, which `full` leaves
    /// uncut.
    ListEntry { long: bool, full: bool },
    /// Show one entry of the base directory in the list of running apps,
    /// if it is one.
    PsEntry { long: bool, full: bool },
    /// Look at one entry of the base directory for the count of apps.
    CountEntry,
}

/// Where a session stands: which answer it waits for.
#[derive(Clone, Copy, PartialEq, Eq, Structural, Debug)]
pub enum Stage {
    /// Nothing was asked yet.
    Start,
    /// Asked whether the app directory exists.
    CheckDir,
    /// Asked to make the app directory.
    MakeDir,
    /// Asked to write the start script.
    InstallStart,
    /// Asked to write the stop script.
    InstallStop,
    /// Asked to write the record.
    WriteRecord,
    /// Asked whether the script that the command needs exists.
    CheckScript,
    /// Asked to read the record.
    Load,
    /// Asked to probe the lock.
    Probe,
    /// Asked to launch.
    Launch,
    /// Asked to print what is about to happen or has just happened, with
    /// more to do afterwards.
    Announce,
    /// Asked for the act that the command is named after.
    Act,
    /// Asked whether the log directory exists.
    CheckLogDir,
    /// Asked to make the log directory.
    MakeLogDir,
    /// Asked whether the log of standard output exists.
    CheckStdout,
    /// Asked to empty the log of standard output.
    TruncStdout,
    /// Asked to print that the log of standard output is cleared.
    SayStdout,
    /// Asked whether the log of standard error exists.
    CheckStderr,
    /// Asked to empty the log of standard error.
    TruncStderr,
    /// Asked to print that the log of standard error is cleared.
    SayStderr,
    /// Asked whether the log to show exists.
    CheckLog,
    /// Asked to print the last words of the command.
    Report,
    /// The command is over.
    Done,
}

/// A command under way.
#[derive(Debug)]
pub struct Session {
    /// The base directory under which the apps live.
    pub base: String,
    /// The name of the app.
    pub name: String,
    /// What is to be done.
    pub command: Command,
    /// How far it has come.
    pub stage: Stage,
    /// The record, once it was read or made.
    pub record: Option<App>,
    /// Whether the lock was found held, once it was probed.
    pub running: bool,
    /// Whether the entry was found to be an app, in a count.
    pub counted: bool,
}

/// Mathematical content of a [`Session`].
pub struct SessionView {
    pub base: Seq<char>,
    pub name: Seq<char>,
    pub command: Command,
    pub stage: Stage,
    pub record: Option<AppView>,
    pub running: bool,
    pub counted: bool,
}

/// The view of an optional record.
pub open spec fn record_view(record: Option<App>) -> Option<AppView> {
    match record {
        Some(app) => Some(app@),
        None => None,
    }
}

impl View for Session {
    type V = SessionView;

    open spec fn view(&self) -> SessionView {
        SessionView {
            base: self.base@,
            name: self.name@,
            command: self.command,
            stage: self.stage,
            record: record_view(self.record),
            running: self.running,
            counted: self.counted,
        }
    }
}

/// The message for an answer that does not fit the question.
pub open spec fn stray_text() -> Seq<char> {
    "unexpected answer from the environment"@
}

impl SessionView {
    /// A session that has not asked anything yet.
    pub open spec fn initial(base: Seq<char>, name: Seq<char>, command: Command) -> SessionView {
        SessionView {
            base,
            name,
            command,
            stage: Stage::Start,
            record: None,
            running: false,
            counted: false,
        }
    }

    /// The directory of the app.
    pub open spec fn dir(self) -> Seq<char> {
        app_dir_of(self.base, self.name)
    }

    /// Go to `stage` and name `action`.
    pub open spec fn ask(self, stage: Stage, action: ActionView) -> (SessionView, ActionView) {
        (SessionView { stage, ..self }, action)
    }

    /// End with a failure.
    pub open spec fn fail(self, kind: ErrorKind, message: Seq<char>) -> (SessionView, ActionView) {
        (
            SessionView { stage: Stage::Done, ..self },
            ActionView::Finish { failure: Some(ErrorView { kind, message }) },
        )
    }

    /// End with success.
    pub open spec fn succeed(self) -> (SessionView, ActionView) {
        (SessionView { stage: Stage::Done, ..self }, ActionView::Finish { failure: None })
    }

    /// End because the answer does not fit the question.
    pub open spec fn stray(self) -> (SessionView, ActionView) {
        self.fail(ErrorKind::IOError, stray_text())
    }

    /// End because there is no app of that name.
    pub open spec fn missing(self) -> (SessionView, ActionView) {
        self.fail(ErrorKind::NotFound, "app '"@ + self.name + "' not exists."@)
    }

    /// End because the script that the command needs is not there.
    pub open spec fn missing_script(self, script: Seq<char>) -> (SessionView, ActionView) {
        self.fail(
            ErrorKind::NotFound,
            "'"@ + debug_form(script) + "'  not found for '"@ + self.name + "'."@,
        )
    }

    /// End because the record cannot be used: `what` says how, `why` is the
    /// system's description, which is shown where `detailed` is set.
    pub open spec fn unusable_record(self, what: Seq<char>, why: Seq<char>, detailed: bool) -> (
        SessionView,
        ActionView,
    ) {
        let place = what + debug_form(record_file_of(self.dir()));
        self.fail(
            ErrorKind::CorruptState,
            if detailed {
                place + ": "@ + why
            } else {
                place
            },
        )
    }

    /// End because the record could not be read or parsed.
    pub open spec fn bad_record(self, read: RecordReadView, detailed: bool) -> (
        SessionView,
        ActionView,
    ) {
        match read {
            RecordReadView::Unreadable(why) => self.unusable_record(
                "unable to read "@,
                why,
                detailed,
            ),
            RecordReadView::Corrupt(why) => self.unusable_record(
                "data is corrupted in "@,
                why,
                detailed,
            ),
            RecordReadView::Loaded(_) => self.stray(),
        }
    }

    /// End because the app is not running.
    pub open spec fn not_running(self) -> (SessionView, ActionView) {
        self.fail(ErrorKind::NotRunning, "app '"@ + self.name + "' is not running"@)
    }

    /// End because the log directory could not be made.
    pub open spec fn no_log_dir(self, why: Seq<char>) -> (SessionView, ActionView) {
        self.fail(
            ErrorKind::IOError,
            "failed to create log dir "@ + debug_form(log_dir_of(self.dir())) + ": "@ + why,
        )
    }

    /// Go on to print the exit status of a program that ran.
    pub open spec fn report_exit(self, status: Seq<char>) -> (SessionView, ActionView) {
        self.ask(Stage::Report, ActionView::Print { text: line_text("exit: "@, status) })
    }

    /// How far the command has come: a number that every step raises unless
    /// it ends the command.
    pub open spec fn progress(self) -> nat {
        match (self.command, self.stage) {
            (_, Stage::Start) => 0,
            (_, Stage::CheckDir) => 1,
            (Command::Create, Stage::MakeDir) => 2,
            (Command::Create, Stage::InstallStart) => 3,
            (Command::Create, Stage::InstallStop) => 4,
            (Command::Create, Stage::WriteRecord) => 5,
            (Command::Create, Stage::Report) => 6,
            (Command::Run, Stage::CheckScript) => 2,
            (Command::Run, Stage::Load) => 3,
            (Command::Run, Stage::Probe) => 4,
            (Command::Run, Stage::Launch) => 5,
            (Command::Run, Stage::WriteRecord) => 6,
            (Command::Run, Stage::Report) => 7,
            (Command::Status, Stage::Load) => 2,
            (Command::Status, Stage::Probe) => 3,
            (Command::Status, Stage::CheckLogDir) => 4,
            (Command::Status, Stage::Report) => 5,
            (Command::Stop { .. }, Stage::CheckScript) => 2,
            (Command::Stop { .. }, Stage::Probe) => 3,
            (Command::Stop { .. }, Stage::Announce) => 4,
            (Command::Stop { .. }, Stage::Act) => 5,
            (Command::Stop { .. }, Stage::Report) => 6,
            (Command::Kill, Stage::Probe) => 2,
            (Command::Kill, Stage::Load) => 3,
            (Command::Kill, Stage::Announce) => 4,
            (Command::Kill, Stage::Act) => 5,
            (Command::Kill, Stage::Report) => 6,
            (Command::Delete, Stage::Probe) => 2,
            (Command::Delete, Stage::Act) => 3,
            (Command::Delete, Stage::Report) => 4,
            (Command::ClearLogs { .. }, Stage::MakeLogDir) => 2,
            (Command::ClearLogs { .. }, Stage::CheckStdout) => 3,
            (Command::ClearLogs { .. }, Stage::TruncStdout) => 4,
            (Command::ClearLogs { .. }, Stage::SayStdout) => 5,
            (Command::ClearLogs { .. }, Stage::CheckStderr) => 6,
            (Command::ClearLogs { .. }, Stage::TruncStderr) => 7,
            (Command::ClearLogs { .. }, Stage::SayStderr) => 8,
            (Command::ShowLogs { .. }, Stage::MakeLogDir) => 2,
            (Command::ShowLogs { .. }, Stage::CheckLog) => 3,
            (Command::ShowLogs { .. }, Stage::Act) => 4,
            (Command::ShowLogs { .. }, Stage::Report) => 5,
            (Command::ListEntry { .. }, Stage::Load) => 2,
            (Command::ListEntry { .. }, Stage::Probe) => 3,
            (Command::ListEntry { .. }, Stage::Report) => 4,
            (Command::PsEntry { .. }, Stage::Probe) => 2,
            (Command::PsEntry { .. }, Stage::Load) => 3,
            (Command::PsEntry { .. }, Stage::Report) => 4,
            (Command::CountEntry, Stage::Probe) => 2,
            _ => 0,
        }
    }

    /// Whether a step from here may write the time `now` into the record.
    pub open spec fn reads_clock(self) -> bool {
        ||| self.command == Command::Create && self.stage == Stage::InstallStop
        ||| self.command == Command::Run && self.stage == Stage::Launch
    }

    /// The step: the session after the answer `event`, and the action it
    /// names. `now` is the time of the step; it matters only where
    /// [`Self::reads_clock`] holds.
    pub open spec fn next(self, event: EventView, now: Seq<char>) -> (SessionView, ActionView) {
        match self.command {
            Command::Create => create_next(self, event, now),
            Command::Run => run_next(self, event, now),
            Command::Status => status_next(self, event),
            Command::Stop { force } => stop_next(self, force, event),
            Command::Kill => kill_next(self, event),
            Command::Delete => delete_next(self, event),
            Command::ClearLogs { stdout, stderr } => clear_next(self, stdout, stderr, event),
            Command::ShowLogs { stderr, follow } => show_next(self, stderr, follow, event),
            Command::ListEntry { long, full } => list_next(self, long, full, event),
            Command::PsEntry { long, full } => ps_next(self, long, full, event),
            Command::CountEntry => count_next(self, event),
        }
    }
}

impl Session {
    /// A session for `command` on the app `name` under `base`.
    pub fn new(base: &str, name: &str, command: Command) -> (s: Session)
        ensures
            s@ == SessionView::initial(base@, name@, command),
    {
        Session {
            base: base.to_owned(),
            name: name.to_owned(),
            command,
            stage: Stage::Start,
            record: None,
            running: false,
            counted: false,
        }
    }

    /// The directory of the app.
    pub fn dir(&self) -> (path: String)
        ensures
            path@ == self@.dir(),
    {
        app_dir(self.base.as_str(), self.name.as_str())
    }

    /// Whether the command is over.
    pub fn is_done(&self) -> (r: bool)
        ensures
            r == (self@.stage == Stage::Done),
    {
        match self.stage {
            Stage::Done => true,
            _ => false,
        }
    }

    pub(crate) fn ask(&mut self, stage: Stage, action: Action) -> (a: Action)
        ensures
            (final(self)@, a@) == old(self)@.ask(stage, action@),
    {
        self.stage = stage;
        action
    }

    pub(crate) fn fail(&mut self, kind: ErrorKind, message: String) -> (a: Action)
        ensures
            (final(self)@, a@) == old(self)@.fail(kind, message@),
    {
        self.stage = Stage::Done;
        Action::Finish { failure: Some(Error::new(kind, message)) }
    }

    pub(crate) fn succeed(&mut self) -> (a: Action)
        ensures
            (final(self)@, a@) == old(self)@.succeed(),
    {
        self.stage = Stage::Done;
        Action::Finish { failure: None }
    }

    pub(crate) fn stray(&mut self) -> (a: Action)
        ensures
            (final(self)@, a@) == old(self)@.stray(),
    {
        self.fail(ErrorKind::IOError, "unexpected answer from the environment".to_owned())
    }

    pub(crate) fn missing(&mut self) -> (a: Action)
        ensures
            (final(self)@, a@) == old(self)@.missing(),
    {
        let message = concat3("app '", self.name.as_str(), "' not exists.");
        self.fail(ErrorKind::NotFound, message)
    }

    pub(crate) fn fail_with(&mut self, failure: Error) -> (a: Action)
        ensures
            (final(self)@, a@) == old(self)@.fail(failure@.kind, failure@.message),
    {
        self.stage = Stage::Done;
        Action::Finish { failure: Some(failure) }
    }

    pub(crate) fn missing_script(&mut self, script: &str) -> (a: Action)
        ensures
            (final(self)@, a@) == old(self)@.missing_script(script@),
    {
        let shown = quoted_path(script);
        let message = concat5("'", shown.as_str(), "'  not found for '", self.name.as_str(), "'.");
        self.fail(ErrorKind::NotFound, message)
    }

    pub(crate) fn bad_record(&mut self, read: RecordRead, detailed: bool) -> (a: Action)
        ensures
            (final(self)@, a@) == old(self)@.bad_record(read@, detailed),
    {
        let dir = self.dir();
        let path = record_file(dir.as_str());
        let shown = quoted_path(path.as_str());
        match read {
            RecordRead::Unreadable(why) => {
                let message = if detailed {
                    concat4("unable to read ", shown.as_str(), ": ", why.as_str())
                } else {
                    concat2("unable to read ", shown.as_str())
                };
                self.fail(ErrorKind::CorruptState, message)
            },
            RecordRead::Corrupt(why) => {
                let message = if detailed {
                    concat4("data is corrupted in ", shown.as_str(), ": ", why.as_str())
                } else {
                    concat2("data is corrupted in ", shown.as_str())
                };
                self.fail(ErrorKind::CorruptState, message)
            },
            RecordRead::Loaded(_) => self.stray(),
        }
    }

    pub(crate) fn not_running(&mut self) -> (a: Action)
        ensures
            (final(self)@, a@) == old(self)@.not_running(),
    {
        let message = concat3("app '", self.name.as_str(), "' is not running");
        self.fail(ErrorKind::NotRunning, message)
    }

    pub(crate) fn no_log_dir(&mut self, why: &str) -> (a: Action)
        ensures
            (final(self)@, a@) == old(self)@.no_log_dir(why@),
    {
        let dir = self.dir();
        let path = log_dir(dir.as_str());
        let shown = quoted_path(path.as_str());
        self.fail(ErrorKind::IOError, concat4("failed to create log dir ", shown.as_str(), ": ", why))
    }

    pub(crate) fn report_exit(&mut self, status: &str) -> (a: Action)
        ensures
            (final(self)@, a@) == old(self)@.report_exit(status@),
    {
        self.ask(Stage::Report, Action::Print { text: concat3("exit: ", status, "\n") })
    }

    /// Whether a step from here may write the time into the record.
    pub fn reads_clock(&self) -> (r: bool)
        ensures
            r == self@.reads_clock(),
    {
        match (self.command, self.stage) {
            (Command::Create, Stage::InstallStop) => true,
            (Command::Run, Stage::Launch) => true,
            _ => false,
        }
    }

    /// Takes the answer `event` at the time `now` and names the next
    /// action.
    pub fn step_at(&mut self, event: Event, now: &str) -> (action: Action)
        ensures
            (final(self)@, action@) == old(self)@.next(event@, now@),
    {
        match self.command {
            Command::Create => create_step(self, event, now),
            Command::Run => run_step(self, event, now),
            Command::Status => status_step(self, event),
            Command::Stop { force } => stop_step(self, force, event),
            Command::Kill => kill_step(self, event),
            Command::Delete => delete_step(self, event),
            Command::ClearLogs { stdout, stderr } => clear_step(self, stdout, stderr, event),
            Command::ShowLogs { stderr, follow } => show_step(self, stderr, follow, event),
            Command::ListEntry { long, full } => list_step(self, long, full, event),
            Command::PsEntry { long, full } => ps_step(self, long, full, event),
            Command::CountEntry => count_step(self, event),
        }
    }

    /// Takes the answer `event` and names the next action. Where the step
    /// writes a timestamp it reads the clock, so all that is known of the
    /// outcome is that it is the step at some time, a time that reads as a
    /// timestamp.
    pub fn step(&mut self, event: Event) -> (action: Action)
        ensures
            exists|now: Seq<char>|
                #[trigger] old(self)@.next(event@, now) == (final(self)@, action@) && (old(
                    self,
                )@.reads_clock() ==> reads_as_time(now)),
    {
        let now = if self.reads_clock() {
            now_rfc3339()
        } else {
            String::new()
        };
        self.step_at(event, now.as_str())
    }
}

} // verus!
