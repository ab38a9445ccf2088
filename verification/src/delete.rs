//! The command that removes an app with all its files. A running app is
//! not removed.

use vstd::prelude::*;
use crate::error::ErrorKind;
use crate::layout::{lock_file, lock_file_of};
use crate::liveness::{is_lock_held, lock_verdict};
use crate::protocol::{Action, ActionView, Event, EventView};
use crate::session::{Session, SessionView, Stage};
use crate::text::concat3;

verus! {

/// The step of `delete`.
pub open spec fn delete_next(s: SessionView, event: EventView) -> (SessionView, ActionView) {
    let dir = s.dir();
    match (s.stage, event) {
        (Stage::Start, EventView::Begin) => s.ask(Stage::CheckDir, ActionView::Exists { path: dir }),
        (Stage::CheckDir, EventView::Exists(false)) => s.missing(),
        (Stage::CheckDir, EventView::Exists(true)) => s.ask(
            Stage::Probe,
            ActionView::ProbeLock { path: lock_file_of(dir) },
        ),
        (Stage::Probe, EventView::Lock(probe)) => match lock_verdict(dir, probe) {
            Err(e) => s.fail(e.kind, e.message),
            Ok(true) => s.fail(
                ErrorKind::AlreadyRunning,
                "can't delete, app '"@ + s.name + "' is running"@,
            ),
            Ok(false) => s.ask(Stage::Act, ActionView::RemoveDir { path: dir }),
        },
        (Stage::Act, EventView::Failed(_)) => s.fail(ErrorKind::IOError, "unable to delete"@),
        (Stage::Act, EventView::Done) => s.ask(
            Stage::Report,
            ActionView::Print { text: "deleted '"@ + s.name + "'\n"@ },
        ),
        (Stage::Report, EventView::Done) => s.succeed(),
        _ => s.stray(),
    }
}

pub(crate) fn delete_step(s: &mut Session, event: Event) -> (action: Action)
    ensures
        (final(s)@, action@) == delete_next(old(s)@, event@),
{
    let dir = s.dir();
    match (s.stage, event) {
        (Stage::Start, Event::Begin) => s.ask(Stage::CheckDir, Action::Exists { path: dir }),
        (Stage::CheckDir, Event::Exists(false)) => s.missing(),
        (Stage::CheckDir, Event::Exists(true)) => s.ask(
            Stage::Probe,
            Action::ProbeLock { path: lock_file(dir.as_str()) },
        ),
        (Stage::Probe, Event::Lock(probe)) => match is_lock_held(dir.as_str(), &probe) {
            Err(e) => s.fail_with(e),
            Ok(true) => {
                let message = concat3("can't delete, app '", s.name.as_str(), "' is running");
                s.fail(ErrorKind::AlreadyRunning, message)
            },
            Ok(false) => s.ask(Stage::Act, Action::RemoveDir { path: dir }),
        },
        (Stage::Act, Event::Failed(_)) => s.fail(ErrorKind::IOError, "unable to delete".to_owned()),
        (Stage::Act, Event::Done) => {
            let text = concat3("deleted '", s.name.as_str(), "'\n");
            s.ask(Stage::Report, Action::Print { text })
        },
        (Stage::Report, Event::Done) => s.succeed(),
        _ => s.stray(),
    }
}

} // verus!
