//! The command that makes an app.
//!
//! An app is made step by step: the directory, the start script, the stop
//! script, the record. Nothing is taken back when a step fails; what was
//! made so far stays for the user to look at, and the name stays taken.

use vstd::prelude::*;
use crate::app::{App, AppView};
use crate::error::ErrorKind;
use crate::launch::{script_body, script_body_text, SCRIPT_MODE};
use crate::layout::{
    record_file,
    record_file_of,
    start_script,
    start_script_of,
    stop_script,
    stop_script_of,
};
use crate::protocol::{Action, ActionView, Event, EventView, ScriptOutcome};
use crate::session::{Session, SessionView, Stage};
use crate::text::{concat2, concat3, concat5, debug_form, quoted_path};

verus! {

/// The action that writes a new script for the app `name` at `path`.
pub open spec fn install_of(path: Seq<char>, name: Seq<char>) -> ActionView {
    ActionView::InstallScript { path, body: script_body_text(name), mode: SCRIPT_MODE }
}

/// The message for a script that could not be written.
pub open spec fn script_failure_text(outcome: ScriptOutcome, path: Seq<char>) -> Seq<char> {
    match outcome {
        ScriptOutcome::MetadataFailed => "failed to get metadata: "@ + debug_form(path),
        ScriptOutcome::PermissionsFailed => "failed to set permissions: "@ + debug_form(path),
        _ => "failed to create file: "@ + debug_form(path),
    }
}

/// What is printed when the app is made.
pub open spec fn created_text(name: Seq<char>, dir: Seq<char>) -> Seq<char> {
    "created app '"@ + name + "'\npath: "@ + debug_form(dir) + "\nstart script: start.sh\n"@
}

/// The step of `create`.
pub open spec fn create_next(s: SessionView, event: EventView, now: Seq<char>) -> (
    SessionView,
    ActionView,
) {
    let dir = s.dir();
    match (s.stage, event) {
        (Stage::Start, EventView::Begin) => s.ask(Stage::CheckDir, ActionView::Exists { path: dir }),
        (Stage::CheckDir, EventView::Exists(true)) => s.fail(
            ErrorKind::AlreadyExists,
            "app '"@ + s.name + "' already exists."@,
        ),
        (Stage::CheckDir, EventView::Exists(false)) => s.ask(
            Stage::MakeDir,
            ActionView::CreateDir { path: dir },
        ),
        (Stage::MakeDir, EventView::Failed(_)) => s.fail(
            ErrorKind::IOError,
            "failed to create path: "@ + debug_form(dir),
        ),
        (Stage::MakeDir, EventView::Done) => s.ask(
            Stage::InstallStart,
            install_of(start_script_of(dir), s.name),
        ),
        (Stage::InstallStart, EventView::Installed(ScriptOutcome::Installed)) => s.ask(
            Stage::InstallStop,
            install_of(stop_script_of(dir), s.name),
        ),
        (Stage::InstallStart, EventView::Installed(outcome)) => s.fail(
            ErrorKind::IOError,
            script_failure_text(outcome, start_script_of(dir)),
        ),
        (Stage::InstallStop, EventView::Installed(ScriptOutcome::Installed)) => s.ask(
            Stage::WriteRecord,
            ActionView::CreateRecord {
                path: record_file_of(dir),
                record: AppView::fresh(s.name, now),
            },
        ),
        (Stage::InstallStop, EventView::Installed(outcome)) => s.fail(
            ErrorKind::IOError,
            script_failure_text(outcome, stop_script_of(dir)),
        ),
        (Stage::WriteRecord, EventView::Failed(_)) => s.fail(
            ErrorKind::IOError,
            "failed to create file: "@ + debug_form(record_file_of(dir)),
        ),
        (Stage::WriteRecord, EventView::Done) => s.ask(
            Stage::Report,
            ActionView::Print { text: created_text(s.name, dir) },
        ),
        (Stage::Report, EventView::Done) => s.succeed(),
        _ => s.stray(),
    }
}

fn install(path: String, name: &str) -> (a: Action)
    ensures
        a@ == install_of(path@, name@),
{
    Action::InstallScript { path, body: script_body(name), mode: SCRIPT_MODE }
}

fn script_failure(outcome: ScriptOutcome, path: &str) -> (m: String)
    ensures
        m@ == script_failure_text(outcome, path@),
{
    let shown = quoted_path(path);
    match outcome {
        ScriptOutcome::MetadataFailed => concat2("failed to get metadata: ", shown.as_str()),
        ScriptOutcome::PermissionsFailed => concat2("failed to set permissions: ", shown.as_str()),
        _ => concat2("failed to create file: ", shown.as_str()),
    }
}

pub(crate) fn create_step(s: &mut Session, event: Event, now: &str) -> (action: Action)
    ensures
        (final(s)@, action@) == create_next(old(s)@, event@, now@),
{
    let dir = s.dir();
    match (s.stage, event) {
        (Stage::Start, Event::Begin) => s.ask(Stage::CheckDir, Action::Exists { path: dir }),
        (Stage::CheckDir, Event::Exists(true)) => {
            let message = concat3("app '", s.name.as_str(), "' already exists.");
            s.fail(ErrorKind::AlreadyExists, message)
        },
        (Stage::CheckDir, Event::Exists(false)) => s.ask(
            Stage::MakeDir,
            Action::CreateDir { path: dir },
        ),
        (Stage::MakeDir, Event::Failed(_)) => {
            let shown = quoted_path(dir.as_str());
            s.fail(ErrorKind::IOError, concat2("failed to create path: ", shown.as_str()))
        },
        (Stage::MakeDir, Event::Done) => {
            let action = install(start_script(dir.as_str()), s.name.as_str());
            s.ask(Stage::InstallStart, action)
        },
        (Stage::InstallStart, Event::Installed(ScriptOutcome::Installed)) => {
            let action = install(stop_script(dir.as_str()), s.name.as_str());
            s.ask(Stage::InstallStop, action)
        },
        (Stage::InstallStart, Event::Installed(outcome)) => {
            let path = start_script(dir.as_str());
            s.fail(ErrorKind::IOError, script_failure(outcome, path.as_str()))
        },
        (Stage::InstallStop, Event::Installed(ScriptOutcome::Installed)) => {
            let record = App::new(s.name.as_str(), now.to_owned());
            s.ask(
                Stage::WriteRecord,
                Action::CreateRecord { path: record_file(dir.as_str()), record },
            )
        },
        (Stage::InstallStop, Event::Installed(outcome)) => {
            let path = stop_script(dir.as_str());
            s.fail(ErrorKind::IOError, script_failure(outcome, path.as_str()))
        },
        (Stage::WriteRecord, Event::Failed(_)) => {
            let path = record_file(dir.as_str());
            let shown = quoted_path(path.as_str());
            s.fail(ErrorKind::IOError, concat2("failed to create file: ", shown.as_str()))
        },
        (Stage::WriteRecord, Event::Done) => {
            let shown = quoted_path(dir.as_str());
            let text = concat5(
                "created app '",
                s.name.as_str(),
                "'\npath: ",
                shown.as_str(),
                "\nstart script: start.sh\n",
            );
            s.ask(Stage::Report, Action::Print { text })
        },
        (Stage::Report, Event::Done) => s.succeed(),
        _ => s.stray(),
    }
}

} // verus!
