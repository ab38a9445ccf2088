//! The words that a command and its surroundings exchange.
//!
//! A command never touches a file, a lock or a process itself. It names the
//! next thing to do as an [`Action`]; the caller does it and answers with an
//! [`Event`]; the command names the next thing; and so on until it names
//! [`Action::Finish`].

use vstd::prelude::*;
use crate::app::{App, AppView};
use crate::error::{Error, ErrorView};
use crate::launch::{Invocation, InvocationView, LaunchPlan, LaunchPlanView};
use crate::liveness::{LockProbe, LockProbeView};

verus! {

/// How writing a new script ended.
#[derive(Clone, Copy, PartialEq, Eq, Structural, Debug)]
pub enum ScriptOutcome {
    /// The file is written and executable.
    Installed,
    /// The file could not be created anew.
    CreateFailed,
    /// The body could not be written.
    WriteFailed,
    /// The file's metadata could not be read.
    MetadataFailed,
    /// The permission bits could not be set.
    PermissionsFailed,
}

/// How reading the record ended.
#[derive(Debug)]
pub enum RecordRead {
    /// The record was read and parsed.
    Loaded(App),
    /// The file could not be read; the text says why.
    Unreadable(String),
    /// The file does not hold a record; the text says why.
    Corrupt(String),
}

/// Mathematical content of a [`RecordRead`].
pub enum RecordReadView {
    Loaded(AppView),
    Unreadable(Seq<char>),
    Corrupt(Seq<char>),
}

impl View for RecordRead {
    type V = RecordReadView;

    open spec fn view(&self) -> RecordReadView {
        match self {
            RecordRead::Loaded(app) => RecordReadView::Loaded(app@),
            RecordRead::Unreadable(why) => RecordReadView::Unreadable(why@),
            RecordRead::Corrupt(why) => RecordReadView::Corrupt(why@),
        }
    }
}

/// How a detached launch ended.
#[derive(Debug)]
pub enum LaunchOutcome {
    /// The wrapper was started under this process id.
    Started(u32),
    /// The log directory could not be made.
    LogDirFailed(String),
    /// The log of standard output could not be opened.
    StdoutFailed(String),
    /// The log of standard error could not be opened.
    StderrFailed(String),
    /// The wrapper could not be started.
    SpawnFailed(String),
}

/// Mathematical content of a [`LaunchOutcome`].
pub enum LaunchOutcomeView {
    Started(u32),
    LogDirFailed(Seq<char>),
    StdoutFailed(Seq<char>),
    StderrFailed(Seq<char>),
    SpawnFailed(Seq<char>),
}

impl View for LaunchOutcome {
    type V = LaunchOutcomeView;

    open spec fn view(&self) -> LaunchOutcomeView {
        match self {
            LaunchOutcome::Started(pid) => LaunchOutcomeView::Started(*pid),
            LaunchOutcome::LogDirFailed(why) => LaunchOutcomeView::LogDirFailed(why@),
            LaunchOutcome::StdoutFailed(why) => LaunchOutcomeView::StdoutFailed(why@),
            LaunchOutcome::StderrFailed(why) => LaunchOutcomeView::StderrFailed(why@),
            LaunchOutcome::SpawnFailed(why) => LaunchOutcomeView::SpawnFailed(why@),
        }
    }
}

/// What the caller reports back after an action.
#[derive(Debug)]
pub enum Event {
    /// Nothing yet: the command is to name its first action.
    Begin,
    /// Answer to [`Action::Exists`] and [`Action::IsDir`].
    Exists(bool),
    /// The action was carried out.
    Done,
    /// The action failed; the text is the system's description.
    Failed(String),
    /// Answer to [`Action::InstallScript`].
    Installed(ScriptOutcome),
    /// Answer to [`Action::ReadRecord`].
    Record(RecordRead),
    /// Answer to [`Action::ProbeLock`].
    Lock(LockProbe),
    /// Answer to [`Action::Launch`].
    Launched(LaunchOutcome),
    /// Answer to [`Action::Run`]: the program ran; whether it reported
    /// success, and its exit status in words.
    Exited { success: bool, status: String },
    /// Answer to [`Action::ReadText`]: the content of the file.
    Text(String),
}

/// Mathematical content of an [`Event`].
pub enum EventView {
    Begin,
    Exists(bool),
    Done,
    Failed(Seq<char>),
    Installed(ScriptOutcome),
    Record(RecordReadView),
    Lock(LockProbeView),
    Launched(LaunchOutcomeView),
    Exited { success: bool, status: Seq<char> },
    Text(Seq<char>),
}

impl View for Event {
    type V = EventView;

    open spec fn view(&self) -> EventView {
        match self {
            Event::Begin => EventView::Begin,
            Event::Exists(there) => EventView::Exists(*there),
            Event::Done => EventView::Done,
            Event::Failed(why) => EventView::Failed(why@),
            Event::Installed(outcome) => EventView::Installed(*outcome),
            Event::Record(read) => EventView::Record(read@),
            Event::Lock(probe) => EventView::Lock(probe@),
            Event::Launched(outcome) => EventView::Launched(outcome@),
            Event::Exited { success, status } => EventView::Exited {
                success: *success,
                status: status@,
            },
            Event::Text(content) => EventView::Text(content@),
        }
    }
}

/// What the caller is to do next.
#[derive(Debug)]
pub enum Action {
    /// Say whether anything exists at the path. Answer: [`Event::Exists`].
    Exists { path: String },
    /// Say whether a directory stands at the path. Answer:
    /// [`Event::Exists`].
    IsDir { path: String },
    /// Create the directory and any missing parent. Answer: [`Event::Done`]
    /// or [`Event::Failed`].
    CreateDir { path: String },
    /// Create the file, which must not exist yet, write the body and set
    /// the permission bits. Answer: [`Event::Installed`].
    InstallScript { path: String, body: String, mode: u32 },
    /// Write the record to the file, which must not exist yet. Answer:
    /// [`Event::Done`] or [`Event::Failed`].
    CreateRecord { path: String, record: App },
    /// Write the record over the file. Answer: [`Event::Done`] or
    /// [`Event::Failed`].
    SaveRecord { path: String, record: App },
    /// Read and parse the record. Answer: [`Event::Record`].
    ReadRecord { path: String },
    /// Try the lock on the file without blocking, and give it back if it
    /// was free. Answer: [`Event::Lock`].
    ProbeLock { path: String },
    /// Launch detached. Answer: [`Event::Launched`].
    Launch { plan: LaunchPlan },
    /// Run the program with the caller's own input and output and wait for
    /// it. Answer: [`Event::Exited`], or [`Event::Failed`] if it could
    /// not be started.
    Run { command: Invocation },
    /// Remove the directory with all that is in it. Answer: [`Event::Done`]
    /// or [`Event::Failed`].
    RemoveDir { path: String },
    /// Empty the file. Answer: [`Event::Done`] or [`Event::Failed`].
    Truncate { path: String },
    /// Read the whole file as text. Answer: [`Event::Text`] or
    /// [`Event::Failed`].
    ReadText { path: String },
    /// Write the text to standard output as it is. Answer: [`Event::Done`].
    Print { text: String },
    /// Write the text to standard error as it is. Answer: [`Event::Done`].
    Warn { text: String },
    /// The command is over: with success, or with the failure to report.
    Finish { failure: Option<Error> },
}

/// Mathematical content of an [`Action`].
pub enum ActionView {
    Exists { path: Seq<char> },
    IsDir { path: Seq<char> },
    CreateDir { path: Seq<char> },
    InstallScript { path: Seq<char>, body: Seq<char>, mode: u32 },
    CreateRecord { path: Seq<char>, record: AppView },
    SaveRecord { path: Seq<char>, record: AppView },
    ReadRecord { path: Seq<char> },
    ProbeLock { path: Seq<char> },
    Launch { plan: LaunchPlanView },
    Run { command: InvocationView },
    RemoveDir { path: Seq<char> },
    Truncate { path: Seq<char> },
    ReadText { path: Seq<char> },
    Print { text: Seq<char> },
    Warn { text: Seq<char> },
    Finish { failure: Option<ErrorView> },
}

/// The view of an optional failure.
pub open spec fn failure_view(failure: Option<Error>) -> Option<ErrorView> {
    match failure {
        Some(e) => Some(e@),
        None => None,
    }
}

impl View for Action {
    type V = ActionView;

    open spec fn view(&self) -> ActionView {
        match self {
            Action::Exists { path } => ActionView::Exists { path: path@ },
            Action::IsDir { path } => ActionView::IsDir { path: path@ },
            Action::CreateDir { path } => ActionView::CreateDir { path: path@ },
            Action::InstallScript { path, body, mode } => ActionView::InstallScript {
                path: path@,
                body: body@,
                mode: *mode,
            },
            Action::CreateRecord { path, record } => ActionView::CreateRecord {
                path: path@,
                record: record@,
            },
            Action::SaveRecord { path, record } => ActionView::SaveRecord {
                path: path@,
                record: record@,
            },
            Action::ReadRecord { path } => ActionView::ReadRecord { path: path@ },
            Action::ProbeLock { path } => ActionView::ProbeLock { path: path@ },
            Action::Launch { plan } => ActionView::Launch { plan: plan@ },
            Action::Run { command } => ActionView::Run { command: command@ },
            Action::RemoveDir { path } => ActionView::RemoveDir { path: path@ },
            Action::Truncate { path } => ActionView::Truncate { path: path@ },
            Action::ReadText { path } => ActionView::ReadText { path: path@ },
            Action::Print { text } => ActionView::Print { text: text@ },
            Action::Warn { text } => ActionView::Warn { text: text@ },
            Action::Finish { failure } => ActionView::Finish { failure: failure_view(*failure) },
        }
    }
}

impl Action {
    /// Whether this action ends the command.
    pub fn is_finish(&self) -> (r: bool)
        ensures
            r == (self@ is Finish),
    {
        match self {
            Action::Finish { .. } => true,
            _ => false,
        }
    }
}

} // verus!
