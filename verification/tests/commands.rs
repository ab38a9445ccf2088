use std::collections::BTreeMap;

use execmgr::app::{App, LastRunInfo};
use execmgr::clock::elapsed_at;
use execmgr::error::ErrorKind;
use execmgr::liveness::{is_lock_held, LockProbe};
use execmgr::listing::{walk_failure, Tally, WalkStep};
use execmgr::protocol::{Action, Event, LaunchOutcome, RecordRead, ScriptOutcome};
use execmgr::session::{Command, Session, Stage};

const BASE: &str = "/b";
const NOW: &str = "2024-05-01T10:20:30.500+00:00";

#[derive(Clone, Debug, PartialEq)]
enum Node {
    Dir,
    Text(String),
    Script(String, u32),
    Record(String, String, Option<(String, u32)>, u64),
}

/// A small stand-in for the file system, the locks and the terminal.
struct Fake {
    nodes: BTreeMap<String, Node>,
    locks: BTreeMap<String, u32>,
    out: String,
    err: String,
    pid: u32,
    exit_ok: bool,
    ran: Vec<(String, Vec<String>)>,
}

fn node_of(app: &App) -> Node {
    Node::Record(
        app.name.clone(),
        app.created_at.clone(),
        app.last_run.as_ref().map(|l| (l.time.clone(), l.pid)),
        app.num_runs,
    )
}

impl Fake {
    fn new() -> Fake {
        Fake {
            nodes: BTreeMap::new(),
            locks: BTreeMap::new(),
            out: String::new(),
            err: String::new(),
            pid: 4242,
            exit_ok: true,
            ran: Vec::new(),
        }
    }

    fn with_app(runs: u64, last: Option<(&str, u32)>) -> Fake {
        let mut fake = Fake::new();
        fake.nodes.insert("/b/web".to_string(), Node::Dir);
        fake.nodes.insert("/b/web/start.sh".to_string(), Node::Script("s".to_string(), 0o755));
        fake.nodes.insert("/b/web/stop.sh".to_string(), Node::Script("s".to_string(), 0o755));
        fake.nodes.insert(
            "/b/web/app.json".to_string(),
            Node::Record(
                "web".to_string(),
                "2024-04-01T09:00:00+00:00".to_string(),
                last.map(|(t, p)| (t.to_string(), p)),
                runs,
            ),
        );
        fake
    }

    fn hold_lock(&mut self, pid: u32) {
        self.nodes.insert("/b/web/app.lock".to_string(), Node::Text(String::new()));
        self.locks.insert("/b/web/app.lock".to_string(), pid);
    }

    fn exit(&mut self, pid: u32) {
        self.locks.retain(|_, holder| *holder != pid);
    }

    fn probe(&self, path: &str) -> LockProbe {
        match self.nodes.get(path) {
            None => LockProbe::Absent,
            Some(Node::Dir) => LockProbe::Unreadable("Is a directory".to_string()),
            Some(_) => {
                if self.locks.contains_key(path) {
                    LockProbe::Held
                } else {
                    LockProbe::Free
                }
            }
        }
    }

    fn respond(&mut self, action: Action) -> Event {
        match action {
            Action::Exists { path } => Event::Exists(self.nodes.contains_key(&path)),
            Action::IsDir { path } => Event::Exists(self.nodes.get(&path) == Some(&Node::Dir)),
            Action::CreateDir { path } => match self.nodes.get(&path) {
                Some(Node::Dir) => Event::Done,
                Some(_) => Event::Failed("File exists (os error 17)".to_string()),
                None => {
                    self.nodes.insert(path, Node::Dir);
                    Event::Done
                }
            },
            Action::InstallScript { path, body, mode } => {
                if self.nodes.contains_key(&path) {
                    Event::Installed(ScriptOutcome::CreateFailed)
                } else {
                    self.nodes.insert(path, Node::Script(body, mode));
                    Event::Installed(ScriptOutcome::Installed)
                }
            }
            Action::CreateRecord { path, record } => {
                if self.nodes.contains_key(&path) {
                    Event::Failed("File exists (os error 17)".to_string())
                } else {
                    self.nodes.insert(path, node_of(&record));
                    Event::Done
                }
            }
            Action::SaveRecord { path, record } => {
                self.nodes.insert(path, node_of(&record));
                Event::Done
            }
            Action::ReadRecord { path } => Event::Record(match self.nodes.get(&path) {
                Some(Node::Record(name, created, last, runs)) => RecordRead::Loaded(App {
                    name: name.clone(),
                    created_at: created.clone(),
                    last_run: last
                        .as_ref()
                        .map(|(time, pid)| LastRunInfo { time: time.clone(), pid: *pid }),
                    num_runs: *runs,
                }),
                Some(Node::Dir) | None => {
                    RecordRead::Unreadable("No such file or directory (os error 2)".to_string())
                }
                Some(_) => RecordRead::Corrupt("expected value at line 1 column 1".to_string()),
            }),
            Action::ProbeLock { path } => Event::Lock(self.probe(&path)),
            Action::Launch { plan } => {
                self.nodes.insert(plan.log_dir.clone(), Node::Dir);
                self.nodes.insert(plan.stdout_log.clone(), Node::Text(String::new()));
                if self.locks.contains_key(&plan.lock_file) {
                    self.nodes.insert(
                        plan.stderr_log.clone(),
                        Node::Text("app already running\n".to_string()),
                    );
                } else {
                    self.nodes.insert(plan.stderr_log.clone(), Node::Text(String::new()));
                    self.nodes.insert(plan.lock_file.clone(), Node::Text(String::new()));
                    self.locks.insert(plan.lock_file.clone(), self.pid);
                }
                self.ran.push((plan.command.program, plan.command.args));
                Event::Launched(LaunchOutcome::Started(self.pid))
            }
            Action::Run { command } => {
                self.ran.push((command.program, command.args));
                if self.exit_ok {
                    Event::Exited { success: true, status: "exit status: 0".to_string() }
                } else {
                    Event::Exited { success: false, status: "exit status: 1".to_string() }
                }
            }
            Action::RemoveDir { path } => {
                let below = format!("{}/", path);
                self.nodes.retain(|p, _| *p != path && !p.starts_with(&below));
                self.locks.retain(|p, _| !p.starts_with(&below));
                Event::Done
            }
            Action::Truncate { path } => {
                self.nodes.insert(path, Node::Text(String::new()));
                Event::Done
            }
            Action::ReadText { path } => match self.nodes.get(&path) {
                Some(Node::Text(content)) => Event::Text(content.clone()),
                _ => Event::Failed("No such file or directory (os error 2)".to_string()),
            },
            Action::Print { text } => {
                self.out.push_str(&text);
                Event::Done
            }
            Action::Warn { text } => {
                self.err.push_str(&text);
                Event::Done
            }
            Action::Finish { .. } => panic!("nothing to do after the end"),
        }
    }

    /// Runs a whole command; the failure, if any, by kind and message.
    fn perform(&mut self, name: &str, command: Command) -> Result<Session, (ErrorKind, String)> {
        let mut session = Session::new(BASE, name, command);
        let mut event = Event::Begin;
        for _ in 0..32 {
            match session.step_at(event, NOW) {
                Action::Finish { failure: None } => return Ok(session),
                Action::Finish { failure: Some(e) } => return Err((e.kind(), e.message())),
                action => event = self.respond(action),
            }
        }
        panic!("the command did not end");
    }

    fn running(&self) -> bool {
        is_lock_held("/b/web", &self.probe("/b/web/app.lock")).unwrap()
    }
}

fn fails(result: Result<Session, (ErrorKind, String)>) -> (ErrorKind, String) {
    match result {
        Ok(_) => panic!("the command succeeded"),
        Err(failure) => failure,
    }
}

/// Steps a session through scripted answers and returns the last action.
fn script(command: Command, events: Vec<Event>) -> (Session, Action) {
    let mut session = Session::new(BASE, "web", command);
    let mut last = session.step_at(Event::Begin, NOW);
    for event in events {
        last = session.step_at(event, NOW);
    }
    (session, last)
}

fn failure_of(action: Action) -> (ErrorKind, String) {
    match action {
        Action::Finish { failure: Some(e) } => (e.kind(), e.message()),
        other => panic!("not a failure: {:?}", other),
    }
}

fn loaded(runs: u64, last: Option<(&str, u32)>) -> Event {
    Event::Record(RecordRead::Loaded(App {
        name: "web".to_string(),
        created_at: "2024-04-01T09:00:00+00:00".to_string(),
        last_run: last.map(|(time, pid)| LastRunInfo { time: time.to_string(), pid }),
        num_runs: runs,
    }))
}

// ---------------------------------------------------------------- create

#[test]
fn create_then_not_running_and_fresh_record() {
    let mut fake = Fake::new();
    fake.perform("web", Command::Create).unwrap();
    assert!(!fake.running());
    assert_eq!(
        fake.nodes.get("/b/web/app.json"),
        Some(&Node::Record("web".to_string(), NOW.to_string(), None, 0))
    );
    assert_eq!(fake.nodes.get("/b/web"), Some(&Node::Dir));
    assert_eq!(
        fake.nodes.get("/b/web/start.sh"),
        Some(&Node::Script("#!/bin/sh\nset -e\nexec echo 'hello from web'\n".to_string(), 0o755))
    );
    assert_eq!(
        fake.nodes.get("/b/web/stop.sh"),
        Some(&Node::Script("#!/bin/sh\nset -e\nexec echo 'hello from web'\n".to_string(), 0o755))
    );
    assert_eq!(fake.nodes.len(), 4);
    assert_eq!(fake.out, "created app 'web'\npath: \"/b/web\"\nstart script: start.sh\n");
}

#[test]
fn create_on_existing_name_fails_with_already_exists() {
    let mut fake = Fake::with_app(0, None);
    let before = fake.nodes.clone();
    let (kind, message) = fails(fake.perform("web", Command::Create));
    assert_eq!(kind, ErrorKind::AlreadyExists);
    assert_eq!(message, "app 'web' already exists.");
    assert_eq!(fake.nodes, before);
    assert_eq!(fake.out, "");
}

#[test]
fn create_on_half_made_app_fails_with_already_exists() {
    let mut fake = Fake::new();
    fake.nodes.insert("/b/web".to_string(), Node::Dir);
    let (kind, _) = fails(fake.perform("web", Command::Create));
    assert_eq!(kind, ErrorKind::AlreadyExists);
    assert_eq!(fake.nodes.len(), 1);
}

#[test]
fn create_where_a_file_has_the_name_fails_with_already_exists() {
    let mut fake = Fake::new();
    fake.nodes.insert("/b/web".to_string(), Node::Text("x".to_string()));
    let (kind, _) = fails(fake.perform("web", Command::Create));
    assert_eq!(kind, ErrorKind::AlreadyExists);
}

#[test]
fn create_reports_directory_that_cannot_be_made() {
    let (_, action) = script(
        Command::Create,
        vec![Event::Exists(false), Event::Failed("Permission denied".to_string())],
    );
    assert_eq!(
        failure_of(action),
        (ErrorKind::IOError, "failed to create path: \"/b/web\"".to_string())
    );
}

#[test]
fn create_reports_each_way_a_script_can_fail() {
    let cases = [
        (ScriptOutcome::CreateFailed, "failed to create file: \"/b/web/start.sh\""),
        (ScriptOutcome::WriteFailed, "failed to create file: \"/b/web/start.sh\""),
        (ScriptOutcome::MetadataFailed, "failed to get metadata: \"/b/web/start.sh\""),
        (ScriptOutcome::PermissionsFailed, "failed to set permissions: \"/b/web/start.sh\""),
    ];
    for (outcome, message) in cases {
        let (_, action) = script(
            Command::Create,
            vec![Event::Exists(false), Event::Done, Event::Installed(outcome)],
        );
        assert_eq!(failure_of(action), (ErrorKind::IOError, message.to_string()));
    }
    let (_, action) = script(
        Command::Create,
        vec![
            Event::Exists(false),
            Event::Done,
            Event::Installed(ScriptOutcome::Installed),
            Event::Installed(ScriptOutcome::PermissionsFailed),
        ],
    );
    assert_eq!(
        failure_of(action),
        (ErrorKind::IOError, "failed to set permissions: \"/b/web/stop.sh\"".to_string())
    );
}

#[test]
fn create_reports_record_that_cannot_be_written() {
    let (_, action) = script(
        Command::Create,
        vec![
            Event::Exists(false),
            Event::Done,
            Event::Installed(ScriptOutcome::Installed),
            Event::Installed(ScriptOutcome::Installed),
            Event::Failed("No space left on device".to_string()),
        ],
    );
    assert_eq!(
        failure_of(action),
        (ErrorKind::IOError, "failed to create file: \"/b/web/app.json\"".to_string())
    );
}

#[test]
fn create_with_the_clock_stamps_a_time_that_reads_back() {
    let mut session = Session::new(BASE, "web", Command::Create);
    let events = vec![
        Event::Begin,
        Event::Exists(false),
        Event::Done,
        Event::Installed(ScriptOutcome::Installed),
        Event::Installed(ScriptOutcome::Installed),
    ];
    let mut last = None;
    for event in events {
        assert!(session.stage != Stage::Done);
        last = Some(session.step(event));
    }
    match last.unwrap() {
        Action::CreateRecord { path, record } => {
            assert_eq!(path, "/b/web/app.json");
            assert_eq!(record.name, "web");
            assert_eq!(record.num_runs, 0);
            assert!(record.last_run.is_none());
            let age = elapsed_at("2020-01-01T00:00:00+00:00", &record.created_at);
            assert!(age.unwrap() > 0);
        }
        other => panic!("unexpected action: {:?}", other),
    }
}

// ------------------------------------------------------------------- run

#[test]
fn run_holds_lock_and_second_run_fails() {
    let mut fake = Fake::with_app(0, None);
    assert!(!fake.running());
    fake.perform("web", Command::Run).unwrap();
    assert!(fake.running());
    assert_eq!(
        fake.nodes.get("/b/web/app.json"),
        Some(&Node::Record(
            "web".to_string(),
            "2024-04-01T09:00:00+00:00".to_string(),
            Some((NOW.to_string(), 4242)),
            1
        ))
    );
    assert_eq!(fake.out, "started 'web'\npid: 4242\nstarted at: 2024-05-01 10:20:30\n");
    assert_eq!(fake.nodes.get("/b/web/logs/stdout.log"), Some(&Node::Text(String::new())));
    assert_eq!(fake.nodes.get("/b/web/logs/stderr.log"), Some(&Node::Text(String::new())));
    assert_eq!(fake.ran.len(), 1);
    assert_eq!(fake.ran[0].0, "bash");
    assert_eq!(fake.ran[0].1[0], "-c");

    fake.pid = 5000;
    let (kind, message) = fails(fake.perform("web", Command::Run));
    assert_eq!(kind, ErrorKind::AlreadyRunning);
    assert_eq!(message, "app 'web' is already running (pid: 4242)");
    assert_eq!(fake.ran.len(), 1);
    assert_eq!(fake.locks.get("/b/web/app.lock"), Some(&4242));
}

#[test]
fn run_counts_every_launch() {
    let mut fake = Fake::with_app(7, Some(("2024-04-02T00:00:00+00:00", 99)));
    fake.perform("web", Command::Run).unwrap();
    assert_eq!(
        fake.nodes.get("/b/web/app.json"),
        Some(&Node::Record(
            "web".to_string(),
            "2024-04-01T09:00:00+00:00".to_string(),
            Some((NOW.to_string(), 4242)),
            8
        ))
    );
}

#[test]
fn after_exit_not_running_though_pid_is_recorded() {
    let mut fake = Fake::with_app(0, None);
    fake.perform("web", Command::Run).unwrap();
    assert!(fake.running());
    fake.exit(4242);
    assert!(!fake.running());
    match fake.nodes.get("/b/web/app.json") {
        Some(Node::Record(_, _, Some((_, pid)), 1)) => assert_eq!(*pid, 4242),
        other => panic!("unexpected record: {:?}", other),
    }
    fake.pid = 4243;
    fake.perform("web", Command::Run).unwrap();
    assert!(fake.running());
}

#[test]
fn run_of_unknown_app_fails_with_not_found() {
    let mut fake = Fake::new();
    let (kind, message) = fails(fake.perform("web", Command::Run));
    assert_eq!(kind, ErrorKind::NotFound);
    assert_eq!(message, "app 'web' not exists.");
}

#[test]
fn run_without_start_script_fails_with_not_found() {
    let mut fake = Fake::with_app(0, None);
    fake.nodes.remove("/b/web/start.sh");
    let (kind, message) = fails(fake.perform("web", Command::Run));
    assert_eq!(kind, ErrorKind::NotFound);
    assert_eq!(message, "'\"/b/web/start.sh\"'  not found for 'web'.");
}

#[test]
fn run_with_unreadable_or_corrupt_record_fails_with_corrupt_state() {
    let mut fake = Fake::with_app(0, None);
    fake.nodes.remove("/b/web/app.json");
    let (kind, message) = fails(fake.perform("web", Command::Run));
    assert_eq!(kind, ErrorKind::CorruptState);
    assert_eq!(message, "unable to read \"/b/web/app.json\"");

    let mut fake = Fake::with_app(0, None);
    fake.nodes.insert("/b/web/app.json".to_string(), Node::Text("{".to_string()));
    let (kind, message) = fails(fake.perform("web", Command::Run));
    assert_eq!(kind, ErrorKind::CorruptState);
    assert_eq!(message, "data is corrupted in \"/b/web/app.json\"");
    assert!(fake.ran.is_empty());
}

#[test]
fn run_while_running_without_recorded_pid_says_none() {
    let mut fake = Fake::with_app(0, None);
    fake.hold_lock(1);
    let (kind, message) = fails(fake.perform("web", Command::Run));
    assert_eq!(kind, ErrorKind::AlreadyRunning);
    assert_eq!(message, "app 'web' is already running (pid: None)");
}

#[test]
fn run_with_unreadable_lock_file_is_an_io_error() {
    let mut fake = Fake::with_app(0, None);
    fake.nodes.insert("/b/web/app.lock".to_string(), Node::Dir);
    let (kind, message) = fails(fake.perform("web", Command::Run));
    assert_eq!(kind, ErrorKind::IOError);
    assert_eq!(message, "failed to open lockfile \"/b/web/app.lock\": Is a directory");
}

#[test]
fn run_with_exhausted_counter_does_not_launch() {
    let mut fake = Fake::with_app(u64::MAX, Some(("t", 1)));
    let (kind, message) = fails(fake.perform("web", Command::Run));
    assert_eq!(kind, ErrorKind::CorruptState);
    assert_eq!(message, "run counter of 'web' cannot grow any further");
    assert!(fake.ran.is_empty());
    assert!(!fake.running());
}

#[test]
fn run_reports_each_way_a_launch_can_fail() {
    let cases = [
        (
            LaunchOutcome::LogDirFailed("denied".to_string()),
            ErrorKind::IOError,
            "failed to create log dir \"/b/web/logs\": denied",
        ),
        (
            LaunchOutcome::StdoutFailed("denied".to_string()),
            ErrorKind::IOError,
            "failed to open stdout log: denied",
        ),
        (
            LaunchOutcome::StderrFailed("denied".to_string()),
            ErrorKind::IOError,
            "failed to open stderr log: denied",
        ),
        (
            LaunchOutcome::SpawnFailed("no bash".to_string()),
            ErrorKind::ChildLaunchFailed,
            "failed to spawn bash wrapper: no bash",
        ),
    ];
    for (outcome, kind, message) in cases {
        let (session, action) = script(
            Command::Run,
            vec![
                Event::Exists(true),
                Event::Exists(true),
                loaded(3, None),
                Event::Lock(LockProbe::Free),
                Event::Launched(outcome),
            ],
        );
        assert_eq!(failure_of(action), (kind, message.to_string()));
        assert_eq!(session.record.unwrap().num_runs, 3);
    }
}

#[test]
fn run_writes_the_record_before_it_announces() {
    let (session, action) = script(
        Command::Run,
        vec![
            Event::Exists(true),
            Event::Exists(true),
            loaded(3, None),
            Event::Lock(LockProbe::Free),
            Event::Launched(LaunchOutcome::Started(9)),
        ],
    );
    match action {
        Action::SaveRecord { path, record } => {
            assert_eq!(path, "/b/web/app.json");
            assert_eq!(record.num_runs, 4);
            assert_eq!(record.last_pid(), Some(9));
            assert_eq!(record.last_run.unwrap().time, NOW);
        }
        other => panic!("unexpected action: {:?}", other),
    }
    assert_eq!(session.stage, Stage::WriteRecord);
    let (_, action) = script(
        Command::Run,
        vec![
            Event::Exists(true),
            Event::Exists(true),
            loaded(3, None),
            Event::Lock(LockProbe::Free),
            Event::Launched(LaunchOutcome::Started(9)),
            Event::Done,
        ],
    );
    match action {
        Action::Print { text } => {
            assert_eq!(text, "started 'web'\npid: 9\nstarted at: 2024-05-01 10:20:30\n")
        }
        other => panic!("unexpected action: {:?}", other),
    }
}

#[test]
fn run_reports_record_that_cannot_be_saved() {
    let (_, action) = script(
        Command::Run,
        vec![
            Event::Exists(true),
            Event::Exists(true),
            loaded(3, None),
            Event::Lock(LockProbe::Absent),
            Event::Launched(LaunchOutcome::Started(9)),
            Event::Failed("disk full".to_string()),
        ],
    );
    assert_eq!(
        failure_of(action),
        (
            ErrorKind::IOError,
            "Something went wrong while writing to \"/b/web/app.json\".".to_string()
        )
    );
}

// ------------------------------------------------------------------ kill

#[test]
fn kill_while_not_running_fails_with_not_running() {
    let mut fake = Fake::with_app(1, Some(("t", 4242)));
    let (kind, message) = fails(fake.perform("web", Command::Kill));
    assert_eq!(kind, ErrorKind::NotRunning);
    assert_eq!(message, "app 'web' is not running");
    assert!(fake.ran.is_empty());
}

#[test]
fn kill_without_prior_run_fails_with_no_recorded_pid() {
    let mut fake = Fake::with_app(0, None);
    fake.hold_lock(1);
    let (kind, message) = fails(fake.perform("web", Command::Kill));
    assert_eq!(kind, ErrorKind::NoRecordedPid);
    assert_eq!(message, "no pidfile found for 'web'; cannot force kill safely");
    assert!(fake.ran.is_empty());
}

#[test]
fn kill_never_run_and_not_running_fails_with_not_running() {
    let mut fake = Fake::with_app(0, None);
    let (kind, _) = fails(fake.perform("web", Command::Kill));
    assert_eq!(kind, ErrorKind::NotRunning);
}

#[test]
fn kill_sends_signal_to_recorded_pid_and_leaves_record() {
    let mut fake = Fake::with_app(1, Some(("t", 4242)));
    fake.hold_lock(4242);
    let before = fake.nodes.clone();
    fake.perform("web", Command::Kill).unwrap();
    assert_eq!(
        fake.ran,
        vec![("kill".to_string(), vec!["-9".to_string(), "4242".to_string()])]
    );
    assert_eq!(fake.out, "force killing 'web' (pid 4242)\nexit: exit status: 0\n");
    assert_eq!(fake.nodes, before);
}

#[test]
fn kill_that_cannot_deliver_fails_with_signal_delivery_failed() {
    let mut fake = Fake::with_app(1, Some(("t", 4242)));
    fake.hold_lock(7);
    fake.exit_ok = false;
    let (kind, message) = fails(fake.perform("web", Command::Kill));
    assert_eq!(kind, ErrorKind::SignalDeliveryFailed);
    assert_eq!(message, "kill -9 failed for pid 4242");

    let (_, action) = script(
        Command::Kill,
        vec![
            Event::Exists(true),
            Event::Lock(LockProbe::Held),
            loaded(1, Some(("t", 5))),
            Event::Done,
            Event::Failed("no such program".to_string()),
        ],
    );
    assert_eq!(
        failure_of(action),
        (
            ErrorKind::SignalDeliveryFailed,
            "failed to run kill -9: no such program".to_string()
        )
    );
}

#[test]
fn kill_of_unknown_app_fails_with_not_found() {
    let mut fake = Fake::new();
    let (kind, _) = fails(fake.perform("web", Command::Kill));
    assert_eq!(kind, ErrorKind::NotFound);
}

// ------------------------------------------------------------------ stop

#[test]
fn stop_while_not_running_fails_with_not_running() {
    let mut fake = Fake::with_app(1, Some(("t", 4242)));
    let (kind, message) = fails(fake.perform("web", Command::Stop { force: false }));
    assert_eq!(kind, ErrorKind::NotRunning);
    assert_eq!(message, "app 'web' is not running");
    assert!(fake.ran.is_empty());
}

#[test]
fn forced_stop_runs_the_script_without_probing() {
    let mut fake = Fake::with_app(1, Some(("t", 4242)));
    fake.perform("web", Command::Stop { force: true }).unwrap();
    assert_eq!(fake.ran, vec![("/b/web/stop.sh".to_string(), vec![])]);
    assert_eq!(fake.out, "stopped 'web'\nexit: exit status: 0\n");
}

#[test]
fn stop_runs_the_script_and_leaves_the_record() {
    let mut fake = Fake::with_app(1, Some(("t", 4242)));
    fake.hold_lock(4242);
    let before = fake.nodes.clone();
    fake.perform("web", Command::Stop { force: false }).unwrap();
    assert_eq!(fake.ran, vec![("/b/web/stop.sh".to_string(), vec![])]);
    assert_eq!(fake.nodes, before);
}

#[test]
fn stop_script_that_fails_gives_script_exit_non_zero() {
    let mut fake = Fake::with_app(1, Some(("t", 4242)));
    fake.hold_lock(4242);
    fake.exit_ok = false;
    let (kind, message) = fails(fake.perform("web", Command::Stop { force: false }));
    assert_eq!(kind, ErrorKind::ScriptExitNonZero);
    assert_eq!(message, "stop.sh failed for app 'web'");
    assert_eq!(fake.out, "stopped 'web'\n");
}

#[test]
fn stop_script_that_cannot_start_gives_child_launch_failed() {
    let (_, action) = script(
        Command::Stop { force: true },
        vec![
            Event::Exists(true),
            Event::Exists(true),
            Event::Done,
            Event::Failed("Exec format error".to_string()),
        ],
    );
    assert_eq!(
        failure_of(action),
        (ErrorKind::ChildLaunchFailed, "failed to run: Exec format error".to_string())
    );
}

#[test]
fn stop_without_stop_script_fails_with_not_found() {
    let mut fake = Fake::with_app(0, None);
    fake.nodes.remove("/b/web/stop.sh");
    let (kind, message) = fails(fake.perform("web", Command::Stop { force: true }));
    assert_eq!(kind, ErrorKind::NotFound);
    assert_eq!(message, "'\"/b/web/stop.sh\"'  not found for 'web'.");
}

// ---------------------------------------------------------------- delete

#[test]
fn delete_while_running_fails_and_removes_nothing() {
    let mut fake = Fake::with_app(1, Some(("t", 4242)));
    fake.hold_lock(4242);
    let before = fake.nodes.clone();
    let (kind, message) = fails(fake.perform("web", Command::Delete));
    assert_eq!(kind, ErrorKind::AlreadyRunning);
    assert_eq!(message, "can't delete, app 'web' is running");
    assert_eq!(fake.nodes, before);
}

#[test]
fn delete_removes_the_tree_and_then_load_fails_with_not_found() {
    let mut fake = Fake::with_app(1, Some(("t", 4242)));
    fake.nodes.insert("/b/web/logs".to_string(), Node::Dir);
    fake.nodes.insert("/b/web/logs/stdout.log".to_string(), Node::Text("x".to_string()));
    fake.nodes.insert("/b/webby".to_string(), Node::Dir);
    fake.perform("web", Command::Delete).unwrap();
    assert_eq!(fake.out, "deleted 'web'\n");
    assert_eq!(fake.nodes.len(), 1);
    assert!(fake.nodes.contains_key("/b/webby"));
    let (kind, message) = fails(fake.perform("web", Command::Status));
    assert_eq!(kind, ErrorKind::NotFound);
    assert_eq!(message, "app 'web' not exists.");
    let (kind, _) = fails(fake.perform("web", Command::Run));
    assert_eq!(kind, ErrorKind::NotFound);
}

#[test]
fn delete_that_cannot_remove_is_an_io_error() {
    let (_, action) = script(
        Command::Delete,
        vec![
            Event::Exists(true),
            Event::Lock(LockProbe::Free),
            Event::Failed("busy".to_string()),
        ],
    );
    assert_eq!(failure_of(action), (ErrorKind::IOError, "unable to delete".to_string()));
}

// ------------------------------------------------------------------ logs

fn with_logs(out: &str, err: &str) -> Fake {
    let mut fake = Fake::with_app(1, Some(("t", 4242)));
    fake.nodes.insert("/b/web/logs".to_string(), Node::Dir);
    fake.nodes.insert("/b/web/logs/stdout.log".to_string(), Node::Text(out.to_string()));
    fake.nodes.insert("/b/web/logs/stderr.log".to_string(), Node::Text(err.to_string()));
    fake
}

#[test]
fn clear_truncates_both_logs() {
    let mut fake = with_logs("some output", "some errors");
    fake.perform("web", Command::ClearLogs { stdout: true, stderr: true }).unwrap();
    assert_eq!(fake.nodes.get("/b/web/logs/stdout.log"), Some(&Node::Text(String::new())));
    assert_eq!(fake.nodes.get("/b/web/logs/stderr.log"), Some(&Node::Text(String::new())));
    assert_eq!(fake.out, "stdout logs cleared for 'web'\nstderr logs cleared for 'web'\n");
}

#[test]
fn clear_is_a_no_op_when_logs_do_not_exist() {
    let mut fake = Fake::with_app(0, None);
    fake.perform("web", Command::ClearLogs { stdout: true, stderr: true }).unwrap();
    assert!(!fake.nodes.contains_key("/b/web/logs/stdout.log"));
    assert!(!fake.nodes.contains_key("/b/web/logs/stderr.log"));
    assert_eq!(fake.nodes.get("/b/web/logs"), Some(&Node::Dir));
    assert_eq!(fake.out, "stdout logs cleared for 'web'\nstderr logs cleared for 'web'\n");
}

#[test]
fn clear_touches_only_the_chosen_log() {
    let mut fake = with_logs("some output", "some errors");
    fake.perform("web", Command::ClearLogs { stdout: false, stderr: true }).unwrap();
    assert_eq!(
        fake.nodes.get("/b/web/logs/stdout.log"),
        Some(&Node::Text("some output".to_string()))
    );
    assert_eq!(fake.nodes.get("/b/web/logs/stderr.log"), Some(&Node::Text(String::new())));
    assert_eq!(fake.out, "stderr logs cleared for 'web'\n");

    let mut fake = with_logs("some output", "some errors");
    fake.perform("web", Command::ClearLogs { stdout: true, stderr: false }).unwrap();
    assert_eq!(fake.nodes.get("/b/web/logs/stdout.log"), Some(&Node::Text(String::new())));
    assert_eq!(
        fake.nodes.get("/b/web/logs/stderr.log"),
        Some(&Node::Text("some errors".to_string()))
    );
    assert_eq!(fake.out, "stdout logs cleared for 'web'\n");
}

#[test]
fn clear_with_nothing_chosen_does_nothing() {
    let mut fake = with_logs("a", "b");
    let before = fake.nodes.clone();
    fake.perform("web", Command::ClearLogs { stdout: false, stderr: false }).unwrap();
    assert_eq!(fake.nodes, before);
    assert_eq!(fake.out, "");
}

#[test]
fn clear_reports_failures() {
    let (_, action) = script(
        Command::ClearLogs { stdout: true, stderr: true },
        vec![Event::Exists(true), Event::Failed("denied".to_string())],
    );
    assert_eq!(
        failure_of(action),
        (ErrorKind::IOError, "failed to create log dir \"/b/web/logs\": denied".to_string())
    );
    let (_, action) = script(
        Command::ClearLogs { stdout: true, stderr: true },
        vec![
            Event::Exists(true),
            Event::Done,
            Event::Exists(true),
            Event::Failed("denied".to_string()),
        ],
    );
    assert_eq!(
        failure_of(action),
        (
            ErrorKind::IOError,
            "failed to clear \"/b/web/logs/stdout.log\": denied".to_string()
        )
    );
    let (_, action) = script(
        Command::ClearLogs { stdout: false, stderr: true },
        vec![
            Event::Exists(true),
            Event::Done,
            Event::Exists(true),
            Event::Failed("denied".to_string()),
        ],
    );
    assert_eq!(
        failure_of(action),
        (
            ErrorKind::IOError,
            "failed to clear \"/b/web/logs/stderr.log\": denied".to_string()
        )
    );
}

#[test]
fn clear_of_unknown_app_fails_with_not_found() {
    let mut fake = Fake::new();
    let (kind, _) = fails(fake.perform("web", Command::ClearLogs { stdout: true, stderr: true }));
    assert_eq!(kind, ErrorKind::NotFound);
}

#[test]
fn show_prints_the_chosen_log_as_it_is() {
    let mut fake = with_logs("line 1\nline 2", "oops\n");
    fake.perform("web", Command::ShowLogs { stderr: false, follow: false }).unwrap();
    assert_eq!(fake.out, "line 1\nline 2");
    let mut fake = with_logs("line 1\nline 2", "oops\n");
    fake.perform("web", Command::ShowLogs { stderr: true, follow: false }).unwrap();
    assert_eq!(fake.out, "oops\n");
}

#[test]
fn show_without_log_fails() {
    let mut fake = Fake::with_app(0, None);
    let (kind, message) =
        fails(fake.perform("web", Command::ShowLogs { stderr: false, follow: false }));
    assert_eq!(kind, ErrorKind::NotFound);
    assert_eq!(message, "no logs found (app may not have been run yet)");
    assert_eq!(fake.nodes.get("/b/web/logs"), Some(&Node::Dir));
}

#[test]
fn follow_hands_over_to_tail() {
    let mut fake = with_logs("a", "b");
    fake.exit_ok = false;
    fake.perform("web", Command::ShowLogs { stderr: true, follow: true }).unwrap();
    assert_eq!(
        fake.ran,
        vec![("tail".to_string(), vec!["-f".to_string(), "/b/web/logs/stderr.log".to_string()])]
    );
    assert_eq!(fake.out, "exit: exit status: 1\n");
}

#[test]
fn show_reports_failures() {
    let (_, action) = script(
        Command::ShowLogs { stderr: false, follow: false },
        vec![
            Event::Exists(true),
            Event::Done,
            Event::Exists(true),
            Event::Failed("denied".to_string()),
        ],
    );
    assert_eq!(
        failure_of(action),
        (ErrorKind::IOError, "failed to read log: denied".to_string())
    );
    let (_, action) = script(
        Command::ShowLogs { stderr: false, follow: true },
        vec![
            Event::Exists(true),
            Event::Done,
            Event::Exists(true),
            Event::Failed("no tail".to_string()),
        ],
    );
    assert_eq!(
        failure_of(action),
        (ErrorKind::ChildLaunchFailed, "failed to follow log: no tail".to_string())
    );
}

// ---------------------------------------------------------------- status

#[test]
fn status_of_an_app_that_never_ran() {
    let mut fake = Fake::with_app(0, None);
    fake.perform("web", Command::Status).unwrap();
    assert_eq!(
        fake.out,
        "name        : web\n\
         path        : /b/web\n\
         created     : 2024-04-01 09:00:00\n\
         runs        : 0\n\
         last run    : -\n\
         last pid    : -\n\
         running     : no\n\
         logs        : -\n"
    );
}

#[test]
fn status_of_a_running_app_with_logs() {
    let mut fake = with_logs("", "");
    fake.nodes.insert(
        "/b/web/app.json".to_string(),
        Node::Record(
            "web".to_string(),
            "2024-04-01T09:00:00+00:00".to_string(),
            Some(("2024-04-03T11:12:13.5+00:00".to_string(), 4242)),
            12,
        ),
    );
    fake.hold_lock(4242);
    fake.perform("web", Command::Status).unwrap();
    assert_eq!(
        fake.out,
        "name        : web\n\
         path        : /b/web\n\
         created     : 2024-04-01 09:00:00\n\
         runs        : 12\n\
         last run    : 2024-04-03 11:12:13\n\
         last pid    : 4242\n\
         running     : yes\n\
         logs        : /b/web/logs\n\
         \x20 stdout    : /b/web/logs/stdout.log\n\
         \x20 stderr    : /b/web/logs/stderr.log\n"
    );
}

#[test]
fn status_says_why_the_record_is_unusable() {
    let mut fake = Fake::with_app(0, None);
    fake.nodes.insert("/b/web/app.json".to_string(), Node::Text("{".to_string()));
    let (kind, message) = fails(fake.perform("web", Command::Status));
    assert_eq!(kind, ErrorKind::CorruptState);
    assert_eq!(
        message,
        "data is corrupted in \"/b/web/app.json\": expected value at line 1 column 1"
    );
    fake.nodes.remove("/b/web/app.json");
    let (kind, message) = fails(fake.perform("web", Command::Status));
    assert_eq!(kind, ErrorKind::CorruptState);
    assert_eq!(
        message,
        "unable to read \"/b/web/app.json\": No such file or directory (os error 2)"
    );
}

// ----------------------------------------------------------------- lists

#[test]
fn short_list_prints_the_name() {
    let mut fake = Fake::with_app(0, None);
    fake.perform("web", Command::ListEntry { long: false, full: false }).unwrap();
    assert_eq!(fake.out, "web\n");
}

#[test]
fn list_warns_about_an_entry_that_is_no_directory() {
    let mut fake = Fake::new();
    fake.nodes.insert("/b/notes.txt".to_string(), Node::Text("x".to_string()));
    fake.perform("notes.txt", Command::ListEntry { long: true, full: false }).unwrap();
    assert_eq!(fake.out, "");
    assert_eq!(fake.err, "Unknow app: /b/notes.txt\n");
    fake.perform("notes.txt", Command::PsEntry { long: false, full: false }).unwrap();
    assert_eq!(fake.err, "Unknow app: /b/notes.txt\nUnknow app: /b/notes.txt\n");
}

#[test]
fn long_list_prints_columns() {
    let mut fake = Fake::with_app(3, Some(("2024-04-03T11:12:13+00:00", 4242)));
    fake.hold_lock(4242);
    fake.perform("web", Command::ListEntry { long: true, full: false }).unwrap();
    let expected = format!(
        "{:<20.20} {:<20.20} {:<25.25} {:<6} {:<8} {:<25.25} {}\n",
        "web", "/b/web", "2024-04-01 09:00:00", 3, "4242", "2024-04-03 11:12:13", "yes"
    );
    assert_eq!(fake.out, expected);
    assert_eq!(
        fake.out,
        "web                  /b/web               2024-04-01 09:00:00       3      4242     2024-04-03 11:12:13       yes\n"
    );
}

#[test]
fn long_list_cuts_long_names_unless_full() {
    let name = "a-very-long-application-name";
    let mut fake = Fake::new();
    fake.nodes.insert(format!("/b/{}", name), Node::Dir);
    fake.nodes.insert(
        format!("/b/{}/app.json", name),
        Node::Record(name.to_string(), "2024-04-01T09:00:00+00:00".to_string(), None, 0),
    );
    fake.perform(name, Command::ListEntry { long: true, full: false }).unwrap();
    let expected = format!(
        "{:<20.20} {:<20.20} {:<25.25} {:<6} {:<8} {:<25.25} {}\n",
        name,
        format!("/b/{}", name),
        "2024-04-01 09:00:00",
        0,
        "-",
        "-",
        "no"
    );
    assert_eq!(fake.out, expected);
    assert!(fake.out.starts_with("a-very-long-applicat /b/a-very-long-appli 2024"));

    fake.out.clear();
    fake.perform(name, Command::ListEntry { long: true, full: true }).unwrap();
    let expected = format!(
        "{:<20} {:<20} {:<25} {:<6} {:<8} {:<25} {}\n",
        name,
        format!("/b/{}", name),
        "2024-04-01 09:00:00",
        0,
        "-",
        "-",
        "no"
    );
    assert_eq!(fake.out, expected);
}

#[test]
fn long_list_fails_on_a_bad_record() {
    let mut fake = Fake::with_app(0, None);
    fake.nodes.insert("/b/web/app.json".to_string(), Node::Text("{".to_string()));
    let (kind, message) =
        fails(fake.perform("web", Command::ListEntry { long: true, full: false }));
    assert_eq!(kind, ErrorKind::CorruptState);
    assert_eq!(message, "data is corrupted in \"/b/web/app.json\"");
}

#[test]
fn ps_passes_over_apps_that_do_not_run() {
    let mut fake = Fake::with_app(3, Some(("t", 4242)));
    fake.perform("web", Command::PsEntry { long: true, full: false }).unwrap();
    assert_eq!(fake.out, "");
    fake.perform("web", Command::PsEntry { long: false, full: false }).unwrap();
    assert_eq!(fake.out, "");
}

#[test]
fn ps_shows_running_apps() {
    let mut fake = Fake::with_app(3, Some(("2024-04-03T11:12:13+00:00", 4242)));
    fake.hold_lock(4242);
    fake.perform("web", Command::PsEntry { long: false, full: false }).unwrap();
    assert_eq!(fake.out, "web\n");
    fake.out.clear();
    fake.perform("web", Command::PsEntry { long: true, full: false }).unwrap();
    let expected = format!(
        "{:<20.20} {:<20.20} {:<25.25} {:<6} {:<8}\n",
        "web", "/b/web", "2024-04-01 09:00:00", 3, "4242"
    );
    assert_eq!(fake.out, expected);
    fake.out.clear();
    fake.perform("web", Command::PsEntry { long: true, full: true }).unwrap();
    let expected = format!(
        "{:<20} {:<20} {:<25} {:<6} {:<8}\n",
        "web", "/b/web", "2024-04-01 09:00:00", 3, "4242"
    );
    assert_eq!(fake.out, expected);
}

#[test]
fn headers_are_laid_out_like_rows() {
    assert_eq!(
        execmgr::listing::app_header(),
        format!(
            "{:<20} {:<20} {:<25} {:<6} {:<8} {:<25} {}\n",
            "NAME", "PATH", "CREATED", "RUNS", "PID", "LAST_RUN", "RUNNING"
        )
    );
    assert_eq!(
        execmgr::listing::process_header(),
        format!("{:<20} {:<20} {:<25} {:<6} {:<8}\n", "NAME", "PATH", "CREATED", "RUNS", "PID")
    );
}

#[test]
fn count_tallies_apps_and_running_apps() {
    let mut fake = Fake::with_app(1, Some(("t", 4242)));
    fake.hold_lock(4242);
    fake.nodes.insert("/b/idle".to_string(), Node::Dir);
    fake.nodes.insert("/b/notes.txt".to_string(), Node::Text("x".to_string()));
    let mut tally = Tally::new();
    for name in ["web", "idle", "notes.txt"] {
        let session = fake.perform(name, Command::CountEntry).unwrap();
        assert!(tally.has_room());
        tally.note(&session);
    }
    assert_eq!(tally, Tally { apps: 2, running: 1 });
    assert_eq!(fake.out, "");
    assert_eq!(execmgr::listing::info_head("/b"), "execmgr info\n-------------\nbase dir    : /b\n");
    assert_eq!(
        execmgr::listing::info_tail(&tally, Some("/usr/bin/execmgr"), "execmgr", "0.1.0"),
        "apps        : 2\nrunning     : 1\nbinary      : /usr/bin/execmgr\nrust        : execmgr\nversion     : 0.1.0\n"
    );
    assert_eq!(
        execmgr::listing::info_tail(&Tally::new(), None, "execmgr", "0.1.0"),
        "apps        : 0\nrunning     : 0\nbinary      : -\nrust        : execmgr\nversion     : 0.1.0\n"
    );
}

#[test]
fn walk_failures_are_worded_by_step() {
    let cases = [
        (WalkStep::Open, false, "unable to read dir"),
        (WalkStep::Entry, false, "error while reading entry"),
        (WalkStep::Kind, false, "error while reading entry type"),
        (WalkStep::Open, true, "unable to read base dir: denied"),
        (WalkStep::Entry, true, "error reading entry: denied"),
        (WalkStep::Kind, true, "denied"),
    ];
    for (step, counting, message) in cases {
        let failure = walk_failure(step, counting, "denied");
        assert_eq!(failure.kind(), ErrorKind::IOError);
        assert_eq!(failure.message(), message);
    }
}

// -------------------------------------------------------------- protocol

#[test]
fn an_answer_that_does_not_fit_ends_the_command() {
    let (session, action) = script(Command::Run, vec![Event::Done]);
    assert_eq!(
        failure_of(action),
        (ErrorKind::IOError, "unexpected answer from the environment".to_string())
    );
    assert!(session.is_done());
}

#[test]
fn a_finished_session_stays_finished() {
    let (mut session, action) = script(Command::Delete, vec![Event::Exists(false)]);
    assert!(action.is_finish());
    assert!(session.is_done());
    let again = session.step_at(Event::Begin, NOW);
    assert!(again.is_finish());
    assert!(session.is_done());
}

#[test]
fn first_action_asks_for_the_app_directory() {
    let commands = [
        Command::Create,
        Command::Run,
        Command::Status,
        Command::Stop { force: false },
        Command::Kill,
        Command::Delete,
        Command::ClearLogs { stdout: true, stderr: true },
        Command::ShowLogs { stderr: false, follow: false },
    ];
    for command in commands {
        let (session, action) = script(command, vec![]);
        match action {
            Action::Exists { path } => assert_eq!(path, "/b/web"),
            other => panic!("unexpected first action: {:?}", other),
        }
        assert_eq!(session.stage, Stage::CheckDir);
        assert_eq!(session.dir(), "/b/web");
    }
}

#[test]
fn only_create_and_run_read_the_clock() {
    let (session, _) = script(
        Command::Create,
        vec![Event::Exists(false), Event::Done, Event::Installed(ScriptOutcome::Installed)],
    );
    assert!(session.reads_clock());
    let (session, _) = script(
        Command::Run,
        vec![
            Event::Exists(true),
            Event::Exists(true),
            loaded(0, None),
            Event::Lock(LockProbe::Free),
        ],
    );
    assert!(session.reads_clock());
    let (session, _) = script(Command::Kill, vec![Event::Exists(true)]);
    assert!(!session.reads_clock());
}
