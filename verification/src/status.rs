//! The command that shows what is known about an app: its record, whether
//! it runs, and where its logs are.

use vstd::prelude::*;
use crate::app::{App, AppView};
use crate::layout::{
    lock_file,
    lock_file_of,
    log_dir,
    log_dir_of,
    log_paths,
    record_file,
    record_file_of,
    stderr_log_of,
    stdout_log_of,
};
use crate::liveness::{is_lock_held, lock_verdict};
use crate::protocol::{Action, ActionView, Event, EventView, RecordRead, RecordReadView};
use crate::session::{Session, SessionView, Stage};
use crate::text::{decimal, decimal_string, line_text, push_line, shown_time, shown_time_text};

verus! {

/// `yes` or `no`.
pub open spec fn yes_no_text(yes: bool) -> Seq<char> {
    if yes {
        "yes"@
    } else {
        "no"@
    }
}

/// `yes` or `no`.
pub fn yes_no(yes: bool) -> (r: &'static str)
    ensures
        r@ == yes_no_text(yes),
{
    if yes {
        "yes"
    } else {
        "no"
    }
}

/// The display form of the time of the last launch, or `-`.
pub open spec fn last_time_text(app: AppView) -> Seq<char> {
    match app.last_run {
        Some(last) => shown_time_text(last.time),
        None => "-"@,
    }
}

/// The process id of the last launch in base ten, or `-`.
pub open spec fn last_pid_text(app: AppView) -> Seq<char> {
    match app.last_run {
        Some(last) => decimal(last.pid as nat),
        None => "-"@,
    }
}

/// The lines about the logs: where they are, or that there are none yet.
pub open spec fn logs_text(dir: Seq<char>, there: bool) -> Seq<char> {
    if there {
        line_text("logs        : "@, log_dir_of(dir)) + line_text(
            "  stdout    : "@,
            stdout_log_of(dir),
        ) + line_text("  stderr    : "@, stderr_log_of(dir))
    } else {
        line_text("logs        : "@, "-"@)
    }
}

/// The whole report on an app.
pub open spec fn status_text(app: AppView, dir: Seq<char>, running: bool, logs: bool) -> Seq<
    char,
> {
    line_text("name        : "@, app.name) + line_text("path        : "@, dir) + line_text(
        "created     : "@,
        shown_time_text(app.created_at),
    ) + line_text("runs        : "@, decimal(app.num_runs)) + line_text(
        "last run    : "@,
        last_time_text(app),
    ) + line_text("last pid    : "@, last_pid_text(app)) + line_text(
        "running     : "@,
        yes_no_text(running),
    ) + logs_text(dir, logs)
}

/// The step of `status`.
pub open spec fn status_next(s: SessionView, event: EventView) -> (SessionView, ActionView) {
    let dir = s.dir();
    match (s.stage, event) {
        (Stage::Start, EventView::Begin) => s.ask(Stage::CheckDir, ActionView::Exists { path: dir }),
        (Stage::CheckDir, EventView::Exists(false)) => s.missing(),
        (Stage::CheckDir, EventView::Exists(true)) => s.ask(
            Stage::Load,
            ActionView::ReadRecord { path: record_file_of(dir) },
        ),
        (Stage::Load, EventView::Record(RecordReadView::Loaded(app))) => (SessionView {
            record: Some(app),
            ..s
        }).ask(Stage::Probe, ActionView::ProbeLock { path: lock_file_of(dir) }),
        (Stage::Load, EventView::Record(read)) => s.bad_record(read, true),
        (Stage::Probe, EventView::Lock(probe)) => match lock_verdict(dir, probe) {
            Err(e) => s.fail(e.kind, e.message),
            Ok(running) => (SessionView { running, ..s }).ask(
                Stage::CheckLogDir,
                ActionView::Exists { path: log_dir_of(dir) },
            ),
        },
        (Stage::CheckLogDir, EventView::Exists(there)) => match s.record {
            Some(app) => s.ask(
                Stage::Report,
                ActionView::Print { text: status_text(app, dir, s.running, there) },
            ),
            None => s.stray(),
        },
        (Stage::Report, EventView::Done) => s.succeed(),
        _ => s.stray(),
    }
}

/// Writes the whole report on an app.
pub fn status_report(app: &App, dir: &str, running: bool, logs: bool) -> (text: String)
    ensures
        text@ == status_text(app@, dir@, running, logs),
{
    let mut out = String::new();
    push_line(&mut out, "name        : ", app.name.as_str());
    push_line(&mut out, "path        : ", dir);
    let created = shown_time(app.created_at.as_str());
    push_line(&mut out, "created     : ", created.as_str());
    let runs = decimal_string(app.num_runs);
    push_line(&mut out, "runs        : ", runs.as_str());
    match &app.last_run {
        Some(last) => {
            let time = shown_time(last.time.as_str());
            let pid = decimal_string(last.pid as u64);
            push_line(&mut out, "last run    : ", time.as_str());
            push_line(&mut out, "last pid    : ", pid.as_str());
        },
        None => {
            push_line(&mut out, "last run    : ", "-");
            push_line(&mut out, "last pid    : ", "-");
        },
    }
    push_line(&mut out, "running     : ", yes_no(running));
    let ghost head = out@;
    if logs {
        let files = log_paths(dir);
        let logs_at = log_dir(dir);
        push_line(&mut out, "logs        : ", logs_at.as_str());
        push_line(&mut out, "  stdout    : ", files.stdout.as_str());
        push_line(&mut out, "  stderr    : ", files.stderr.as_str());
    } else {
        push_line(&mut out, "logs        : ", "-");
    }
    assert(out@ =~= head + logs_text(dir@, logs));
    assert(head =~= line_text("name        : "@, app@.name) + line_text("path        : "@, dir@)
        + line_text("created     : "@, shown_time_text(app@.created_at)) + line_text(
        "runs        : "@,
        decimal(app@.num_runs),
    ) + line_text("last run    : "@, last_time_text(app@)) + line_text(
        "last pid    : "@,
        last_pid_text(app@),
    ) + line_text("running     : "@, yes_no_text(running)));
    out
}

pub(crate) fn status_step(s: &mut Session, event: Event) -> (action: Action)
    ensures
        (final(s)@, action@) == status_next(old(s)@, event@),
{
    let dir = s.dir();
    match (s.stage, event) {
        (Stage::Start, Event::Begin) => s.ask(Stage::CheckDir, Action::Exists { path: dir }),
        (Stage::CheckDir, Event::Exists(false)) => s.missing(),
        (Stage::CheckDir, Event::Exists(true)) => s.ask(
            Stage::Load,
            Action::ReadRecord { path: record_file(dir.as_str()) },
        ),
        (Stage::Load, Event::Record(RecordRead::Loaded(app))) => {
            s.record = Some(app);
            s.ask(Stage::Probe, Action::ProbeLock { path: lock_file(dir.as_str()) })
        },
        (Stage::Load, Event::Record(read)) => s.bad_record(read, true),
        (Stage::Probe, Event::Lock(probe)) => match is_lock_held(dir.as_str(), &probe) {
            Err(e) => s.fail_with(e),
            Ok(running) => {
                s.running = running;
                s.ask(Stage::CheckLogDir, Action::Exists { path: log_dir(dir.as_str()) })
            },
        },
        (Stage::CheckLogDir, Event::Exists(there)) => {
            let text = match &s.record {
                Some(app) => Some(status_report(app, dir.as_str(), s.running, there)),
                None => None,
            };
            match text {
                Some(text) => s.ask(Stage::Report, Action::Print { text }),
                None => s.stray(),
            }
        },
        (Stage::Report, Event::Done) => s.succeed(),
        _ => s.stray(),
    }
}

} // verus!
