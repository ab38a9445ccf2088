//! The commands that go through all apps: the list of apps, the list of
//! running apps and the count.
//!
//! The caller walks the base directory. For each entry it steps a session
//! of its own, which looks at that one entry and prints its line; the
//! count is kept in a [`Tally`].

use vstd::prelude::*;
use crate::app::{App, AppView};
use crate::error::{Error, ErrorKind, ErrorView};
use crate::layout::{lock_file, lock_file_of, record_file, record_file_of};
use crate::liveness::{is_lock_held, lock_verdict};
use crate::protocol::{Action, ActionView, Event, EventView, RecordRead, RecordReadView};
use crate::session::{Session, SessionView, Stage};
use crate::status::{last_pid_text, last_time_text, yes_no, yes_no_text};
use crate::text::{
    cell,
    concat2,
    concat3,
    decimal,
    decimal_string,
    fit_column,
    line_text,
    push_line,
    shown_time,
    shown_time_text,
};

verus! {

/// Width of the columns for name and path.
pub const NAME_WIDTH: usize = 20;

/// Width of the columns for timestamps.
pub const TIME_WIDTH: usize = 25;

/// Width of the column for the number of launches.
pub const RUNS_WIDTH: usize = 6;

/// Width of the column for the process id.
pub const PID_WIDTH: usize = 8;

/// A line of the list of running apps: five columns, left-aligned and a
/// space apart. Name, path and time are cut to their columns where `clip`
/// is set.
pub open spec fn process_line_text(
    name: Seq<char>,
    path: Seq<char>,
    created: Seq<char>,
    runs: Seq<char>,
    pid: Seq<char>,
    clip: bool,
) -> Seq<char> {
    cell(name, NAME_WIDTH as nat, clip) + " "@ + cell(path, NAME_WIDTH as nat, clip) + " "@ + cell(
        created,
        TIME_WIDTH as nat,
        clip,
    ) + " "@ + cell(runs, RUNS_WIDTH as nat, false) + " "@ + cell(pid, PID_WIDTH as nat, false)
        + "\n"@
}

/// A line of the list of apps: the five columns of the other list, then
/// the time of the last launch and whether the app is running.
pub open spec fn app_line_text(
    name: Seq<char>,
    path: Seq<char>,
    created: Seq<char>,
    runs: Seq<char>,
    pid: Seq<char>,
    last: Seq<char>,
    running: Seq<char>,
    clip: bool,
) -> Seq<char> {
    cell(name, NAME_WIDTH as nat, clip) + " "@ + cell(path, NAME_WIDTH as nat, clip) + " "@ + cell(
        created,
        TIME_WIDTH as nat,
        clip,
    ) + " "@ + cell(runs, RUNS_WIDTH as nat, false) + " "@ + cell(pid, PID_WIDTH as nat, false)
        + " "@ + cell(last, TIME_WIDTH as nat, clip) + " "@ + running + "\n"@
}

/// The heading of the list of apps.
pub open spec fn app_header_text() -> Seq<char> {
    app_line_text(
        "NAME"@,
        "PATH"@,
        "CREATED"@,
        "RUNS"@,
        "PID"@,
        "LAST_RUN"@,
        "RUNNING"@,
        false,
    )
}

/// The heading of the list of running apps.
pub open spec fn process_header_text() -> Seq<char> {
    process_line_text("NAME"@, "PATH"@, "CREATED"@, "RUNS"@, "PID"@, false)
}

/// The line of an app in the list of apps.
pub open spec fn app_row_text(app: AppView, name: Seq<char>, path: Seq<char>, running: bool, full: bool) -> Seq<
    char,
> {
    app_line_text(
        name,
        path,
        shown_time_text(app.created_at),
        decimal(app.num_runs),
        last_pid_text(app),
        last_time_text(app),
        yes_no_text(running),
        !full,
    )
}

/// The line of an app in the list of running apps.
pub open spec fn process_row_text(app: AppView, name: Seq<char>, path: Seq<char>, full: bool) -> Seq<
    char,
> {
    process_line_text(
        name,
        path,
        shown_time_text(app.created_at),
        decimal(app.num_runs),
        last_pid_text(app),
        !full,
    )
}

fn push_columns(
    out: &mut String,
    name: &str,
    path: &str,
    created: &str,
    runs: &str,
    pid: &str,
    clip: bool,
)
    ensures
        final(out)@ == old(out)@ + cell(name@, NAME_WIDTH as nat, clip) + " "@ + cell(
            path@,
            NAME_WIDTH as nat,
            clip,
        ) + " "@ + cell(created@, TIME_WIDTH as nat, clip) + " "@ + cell(
            runs@,
            RUNS_WIDTH as nat,
            false,
        ) + " "@ + cell(pid@, PID_WIDTH as nat, false),
{
    out.append(fit_column(name, NAME_WIDTH, clip).as_str());
    out.append(" ");
    out.append(fit_column(path, NAME_WIDTH, clip).as_str());
    out.append(" ");
    out.append(fit_column(created, TIME_WIDTH, clip).as_str());
    out.append(" ");
    out.append(fit_column(runs, RUNS_WIDTH, false).as_str());
    out.append(" ");
    out.append(fit_column(pid, PID_WIDTH, false).as_str());
}

/// Lays out a line of the list of running apps.
pub fn process_line(name: &str, path: &str, created: &str, runs: &str, pid: &str, clip: bool) -> (line:
    String)
    ensures
        line@ == process_line_text(name@, path@, created@, runs@, pid@, clip),
{
    let mut out = String::new();
    push_columns(&mut out, name, path, created, runs, pid, clip);
    out.append("\n");
    assert(out@ =~= process_line_text(name@, path@, created@, runs@, pid@, clip));
    out
}

/// Lays out a line of the list of apps.
pub fn app_line(
    name: &str,
    path: &str,
    created: &str,
    runs: &str,
    pid: &str,
    last: &str,
    running: &str,
    clip: bool,
) -> (line: String)
    ensures
        line@ == app_line_text(name@, path@, created@, runs@, pid@, last@, running@, clip),
{
    let mut out = String::new();
    push_columns(&mut out, name, path, created, runs, pid, clip);
    out.append(" ");
    out.append(fit_column(last, TIME_WIDTH, clip).as_str());
    out.append(" ");
    out.append(running);
    out.append("\n");
    assert(out@ =~= app_line_text(name@, path@, created@, runs@, pid@, last@, running@, clip));
    out
}

/// The heading of the list of apps.
pub fn app_header() -> (line: String)
    ensures
        line@ == app_header_text(),
{
    app_line("NAME", "PATH", "CREATED", "RUNS", "PID", "LAST_RUN", "RUNNING", false)
}

/// The heading of the list of running apps.
pub fn process_header() -> (line: String)
    ensures
        line@ == process_header_text(),
{
    process_line("NAME", "PATH", "CREATED", "RUNS", "PID", false)
}

fn last_pid_string(app: &App) -> (r: String)
    ensures
        r@ == last_pid_text(app@),
{
    match app.last_pid() {
        Some(pid) => decimal_string(pid as u64),
        None => "-".to_owned(),
    }
}

fn last_time_string(app: &App) -> (r: String)
    ensures
        r@ == last_time_text(app@),
{
    match &app.last_run {
        Some(last) => shown_time(last.time.as_str()),
        None => "-".to_owned(),
    }
}

/// The line of an app in the list of apps.
pub fn app_row(app: &App, name: &str, path: &str, running: bool, full: bool) -> (line: String)
    ensures
        line@ == app_row_text(app@, name@, path@, running, full),
{
    let created = shown_time(app.created_at.as_str());
    let runs = decimal_string(app.num_runs);
    let pid = last_pid_string(app);
    let last = last_time_string(app);
    app_line(
        name,
        path,
        created.as_str(),
        runs.as_str(),
        pid.as_str(),
        last.as_str(),
        yes_no(running),
        !full,
    )
}

/// The line of an app in the list of running apps.
pub fn process_row(app: &App, name: &str, path: &str, full: bool) -> (line: String)
    ensures
        line@ == process_row_text(app@, name@, path@, full),
{
    let created = shown_time(app.created_at.as_str());
    let runs = decimal_string(app.num_runs);
    let pid = last_pid_string(app);
    process_line(name, path, created.as_str(), runs.as_str(), pid.as_str(), !full)
}

/// Go on to warn that the entry is no app.
pub open spec fn warn_stranger(s: SessionView) -> (SessionView, ActionView) {
    s.ask(Stage::Report, ActionView::Warn { text: line_text("Unknow app: "@, s.dir()) })
}

/// Go on to print the bare name of the app.
pub open spec fn print_name(s: SessionView) -> (SessionView, ActionView) {
    s.ask(Stage::Report, ActionView::Print { text: s.name + "\n"@ })
}

/// The step for one entry of the list of apps. Without `long` the name is
/// all that is shown and nothing is read; with it the record is read and
/// the lock is probed.
pub open spec fn list_next(s: SessionView, long: bool, full: bool, event: EventView) -> (
    SessionView,
    ActionView,
) {
    let dir = s.dir();
    match (s.stage, event) {
        (Stage::Start, EventView::Begin) => s.ask(Stage::CheckDir, ActionView::IsDir { path: dir }),
        (Stage::CheckDir, EventView::Exists(false)) => warn_stranger(s),
        (Stage::CheckDir, EventView::Exists(true)) => if long {
            s.ask(Stage::Load, ActionView::ReadRecord { path: record_file_of(dir) })
        } else {
            print_name(s)
        },
        (Stage::Load, EventView::Record(RecordReadView::Loaded(app))) => (SessionView {
            record: Some(app),
            ..s
        }).ask(Stage::Probe, ActionView::ProbeLock { path: lock_file_of(dir) }),
        (Stage::Load, EventView::Record(read)) => s.bad_record(read, false),
        (Stage::Probe, EventView::Lock(probe)) => match lock_verdict(dir, probe) {
            Err(e) => s.fail(e.kind, e.message),
            Ok(running) => match s.record {
                Some(app) => (SessionView { running, ..s }).ask(
                    Stage::Report,
                    ActionView::Print { text: app_row_text(app, s.name, dir, running, full) },
                ),
                None => s.stray(),
            },
        },
        (Stage::Report, EventView::Done) => s.succeed(),
        _ => s.stray(),
    }
}

/// The step for one entry of the list of running apps. An app whose lock
/// is free is passed over in silence.
pub open spec fn ps_next(s: SessionView, long: bool, full: bool, event: EventView) -> (
    SessionView,
    ActionView,
) {
    let dir = s.dir();
    match (s.stage, event) {
        (Stage::Start, EventView::Begin) => s.ask(Stage::CheckDir, ActionView::IsDir { path: dir }),
        (Stage::CheckDir, EventView::Exists(false)) => warn_stranger(s),
        (Stage::CheckDir, EventView::Exists(true)) => s.ask(
            Stage::Probe,
            ActionView::ProbeLock { path: lock_file_of(dir) },
        ),
        (Stage::Probe, EventView::Lock(probe)) => match lock_verdict(dir, probe) {
            Err(e) => s.fail(e.kind, e.message),
            Ok(false) => s.succeed(),
            Ok(true) => if long {
                (SessionView { running: true, ..s }).ask(
                    Stage::Load,
                    ActionView::ReadRecord { path: record_file_of(dir) },
                )
            } else {
                print_name(SessionView { running: true, ..s })
            },
        },
        (Stage::Load, EventView::Record(RecordReadView::Loaded(app))) => (SessionView {
            record: Some(app),
            ..s
        }).ask(Stage::Report, ActionView::Print { text: process_row_text(app, s.name, dir, full) }),
        (Stage::Load, EventView::Record(read)) => s.bad_record(read, false),
        (Stage::Report, EventView::Done) => s.succeed(),
        _ => s.stray(),
    }
}

/// The step for one entry of the count: is it an app, and is it running.
/// The answers are left in the session for the [`Tally`].
pub open spec fn count_next(s: SessionView, event: EventView) -> (SessionView, ActionView) {
    let dir = s.dir();
    match (s.stage, event) {
        (Stage::Start, EventView::Begin) => s.ask(Stage::CheckDir, ActionView::IsDir { path: dir }),
        (Stage::CheckDir, EventView::Exists(false)) => s.succeed(),
        (Stage::CheckDir, EventView::Exists(true)) => (SessionView { counted: true, ..s }).ask(
            Stage::Probe,
            ActionView::ProbeLock { path: lock_file_of(dir) },
        ),
        (Stage::Probe, EventView::Lock(probe)) => match lock_verdict(dir, probe) {
            Err(e) => s.fail(e.kind, e.message),
            Ok(running) => (SessionView { running, ..s }).succeed(),
        },
        _ => s.stray(),
    }
}

fn warn(s: &mut Session) -> (a: Action)
    ensures
        (final(s)@, a@) == warn_stranger(old(s)@),
{
    let dir = s.dir();
    s.ask(Stage::Report, Action::Warn { text: concat3("Unknow app: ", dir.as_str(), "\n") })
}

fn name_only(s: &mut Session) -> (a: Action)
    ensures
        (final(s)@, a@) == print_name(old(s)@),
{
    let text = concat2(s.name.as_str(), "\n");
    s.ask(Stage::Report, Action::Print { text })
}

pub(crate) fn list_step(s: &mut Session, long: bool, full: bool, event: Event) -> (action: Action)
    ensures
        (final(s)@, action@) == list_next(old(s)@, long, full, event@),
{
    let dir = s.dir();
    match (s.stage, event) {
        (Stage::Start, Event::Begin) => s.ask(Stage::CheckDir, Action::IsDir { path: dir }),
        (Stage::CheckDir, Event::Exists(false)) => warn(s),
        (Stage::CheckDir, Event::Exists(true)) => {
            if long {
                s.ask(Stage::Load, Action::ReadRecord { path: record_file(dir.as_str()) })
            } else {
                name_only(s)
            }
        },
        (Stage::Load, Event::Record(RecordRead::Loaded(app))) => {
            s.record = Some(app);
            s.ask(Stage::Probe, Action::ProbeLock { path: lock_file(dir.as_str()) })
        },
        (Stage::Load, Event::Record(read)) => s.bad_record(read, false),
        (Stage::Probe, Event::Lock(probe)) => match is_lock_held(dir.as_str(), &probe) {
            Err(e) => s.fail_with(e),
            Ok(running) => {
                let text = match &s.record {
                    Some(app) => Some(
                        app_row(app, s.name.as_str(), dir.as_str(), running, full),
                    ),
                    None => None,
                };
                match text {
                    Some(text) => {
                        s.running = running;
                        s.ask(Stage::Report, Action::Print { text })
                    },
                    None => s.stray(),
                }
            },
        },
        (Stage::Report, Event::Done) => s.succeed(),
        _ => s.stray(),
    }
}

pub(crate) fn ps_step(s: &mut Session, long: bool, full: bool, event: Event) -> (action: Action)
    ensures
        (final(s)@, action@) == ps_next(old(s)@, long, full, event@),
{
    let dir = s.dir();
    match (s.stage, event) {
        (Stage::Start, Event::Begin) => s.ask(Stage::CheckDir, Action::IsDir { path: dir }),
        (Stage::CheckDir, Event::Exists(false)) => warn(s),
        (Stage::CheckDir, Event::Exists(true)) => s.ask(
            Stage::Probe,
            Action::ProbeLock { path: lock_file(dir.as_str()) },
        ),
        (Stage::Probe, Event::Lock(probe)) => match is_lock_held(dir.as_str(), &probe) {
            Err(e) => s.fail_with(e),
            Ok(false) => s.succeed(),
            Ok(true) => {
                s.running = true;
                if long {
                    s.ask(Stage::Load, Action::ReadRecord { path: record_file(dir.as_str()) })
                } else {
                    name_only(s)
                }
            },
        },
        (Stage::Load, Event::Record(RecordRead::Loaded(app))) => {
            let text = process_row(&app, s.name.as_str(), dir.as_str(), full);
            s.record = Some(app);
            s.ask(Stage::Report, Action::Print { text })
        },
        (Stage::Load, Event::Record(read)) => s.bad_record(read, false),
        (Stage::Report, Event::Done) => s.succeed(),
        _ => s.stray(),
    }
}

pub(crate) fn count_step(s: &mut Session, event: Event) -> (action: Action)
    ensures
        (final(s)@, action@) == count_next(old(s)@, event@),
{
    let dir = s.dir();
    match (s.stage, event) {
        (Stage::Start, Event::Begin) => s.ask(Stage::CheckDir, Action::IsDir { path: dir }),
        (Stage::CheckDir, Event::Exists(false)) => s.succeed(),
        (Stage::CheckDir, Event::Exists(true)) => {
            s.counted = true;
            s.ask(Stage::Probe, Action::ProbeLock { path: lock_file(dir.as_str()) })
        },
        (Stage::Probe, Event::Lock(probe)) => match is_lock_held(dir.as_str(), &probe) {
            Err(e) => s.fail_with(e),
            Ok(running) => {
                s.running = running;
                s.succeed()
            },
        },
        _ => s.stray(),
    }
}

/// Where the walk through the base directory can fail.
#[derive(Clone, Copy, PartialEq, Eq, Structural, Debug)]
pub enum WalkStep {
    /// Opening the base directory.
    Open,
    /// Reading the next entry.
    Entry,
    /// Finding out what kind of entry it is.
    Kind,
}

/// The message for a walk that failed at `step`. The count passes the
/// system's description on; the lists say only what failed.
pub open spec fn walk_failure_text(step: WalkStep, counting: bool, why: Seq<char>) -> Seq<char> {
    match (step, counting) {
        (WalkStep::Open, true) => "unable to read base dir: "@ + why,
        (WalkStep::Open, false) => "unable to read dir"@,
        (WalkStep::Entry, true) => "error reading entry: "@ + why,
        (WalkStep::Entry, false) => "error while reading entry"@,
        (WalkStep::Kind, true) => why,
        (WalkStep::Kind, false) => "error while reading entry type"@,
    }
}

/// The failure of a walk through the base directory at `step`, for the
/// count where `counting` is set and for a list otherwise; `why` is the
/// system's description.
pub fn walk_failure(step: WalkStep, counting: bool, why: &str) -> (failure: Error)
    ensures
        failure@ == (ErrorView {
            kind: ErrorKind::IOError,
            message: walk_failure_text(step, counting, why@),
        }),
{
    let message = match (step, counting) {
        (WalkStep::Open, true) => concat2("unable to read base dir: ", why),
        (WalkStep::Open, false) => "unable to read dir".to_owned(),
        (WalkStep::Entry, true) => concat2("error reading entry: ", why),
        (WalkStep::Entry, false) => "error while reading entry".to_owned(),
        (WalkStep::Kind, true) => why.to_owned(),
        (WalkStep::Kind, false) => "error while reading entry type".to_owned(),
    };
    Error::new(ErrorKind::IOError, message)
}

/// How many apps there are, and how many of them are running.
#[derive(Clone, Copy, PartialEq, Eq, Structural, Debug)]
pub struct Tally {
    /// Entries of the base directory that are directories.
    pub apps: usize,
    /// Those of them whose lock is held.
    pub running: usize,
}

impl Tally {
    /// The tally with one more entry looked at: an app is counted, and
    /// counted as running where it is.
    pub open spec fn noted(self, is_app: bool, running: bool) -> Tally {
        Tally {
            apps: if is_app {
                (self.apps + 1) as usize
            } else {
                self.apps
            },
            running: if is_app && running {
                (self.running + 1) as usize
            } else {
                self.running
            },
        }
    }

    /// No more apps are counted as running than there are.
    pub open spec fn sane(self) -> bool {
        self.running <= self.apps
    }

    /// The tally of nothing.
    pub fn new() -> (t: Tally)
        ensures
            t == (Tally { apps: 0, running: 0 }),
            t.sane(),
    {
        Tally { apps: 0, running: 0 }
    }

    /// Whether one more app can be counted.
    pub fn has_room(&self) -> (r: bool)
        ensures
            r == (self.apps < usize::MAX),
    {
        self.apps < usize::MAX
    }

    /// Looks at what a count session found and counts it.
    pub fn note(&mut self, session: &Session)
        requires
            old(self).sane(),
            old(self).apps < usize::MAX,
        ensures
            *final(self) == old(self).noted(session@.counted, session@.running),
            final(self).sane(),
            final(self).apps == old(self).apps + (if session@.counted {
                1int
            } else {
                0int
            }),
    {
        if session.counted {
            self.apps = self.apps + 1;
            if session.running {
                self.running = self.running + 1;
            }
        }
    }
}

/// The first lines of the count: a title and the base directory.
pub open spec fn info_head_text(base: Seq<char>) -> Seq<char> {
    "execmgr info\n-------------\n"@ + line_text("base dir    : "@, base)
}

/// The last lines of the count: the numbers, the program and its package.
pub open spec fn info_tail_text(
    tally: Tally,
    binary: Option<Seq<char>>,
    package: Seq<char>,
    version: Seq<char>,
) -> Seq<char> {
    line_text("apps        : "@, decimal(tally.apps as nat)) + line_text(
        "running     : "@,
        decimal(tally.running as nat),
    ) + line_text(
        "binary      : "@,
        match binary {
            Some(path) => path,
            None => "-"@,
        },
    ) + line_text("rust        : "@, package) + line_text("version     : "@, version)
}

/// The first lines of the count.
pub fn info_head(base: &str) -> (text: String)
    ensures
        text@ == info_head_text(base@),
{
    let mut out = "execmgr info\n-------------\n".to_owned();
    push_line(&mut out, "base dir    : ", base);
    out
}

/// The last lines of the count.
pub fn info_tail(tally: &Tally, binary: Option<&str>, package: &str, version: &str) -> (text: String)
    ensures
        text@ == info_tail_text(
            *tally,
            match binary {
                Some(path) => Some(path@),
                None => None,
            },
            package@,
            version@,
        ),
{
    let mut out = String::new();
    let apps = decimal_string(tally.apps as u64);
    let running = decimal_string(tally.running as u64);
    push_line(&mut out, "apps        : ", apps.as_str());
    push_line(&mut out, "running     : ", running.as_str());
    match binary {
        Some(path) => push_line(&mut out, "binary      : ", path),
        None => push_line(&mut out, "binary      : ", "-"),
    }
    push_line(&mut out, "rust        : ", package);
    push_line(&mut out, "version     : ", version);
    assert(out@ =~= info_tail_text(
        *tally,
        match binary {
            Some(path) => Some(path@),
            None => None,
        },
        package@,
        version@,
    ));
    out
}

} // verus!
