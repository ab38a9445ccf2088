//! What the commands achieve, stated over whole courses in the model of
//! the surroundings and proved from the steps.

use vstd::prelude::*;
use crate::app::AppView;
use crate::error::{ErrorKind, ErrorView};
use crate::layout::{
    app_dir_of,
    app_paths,
    in_tree,
    lemma_app_paths_distinct,
    lock_file_of,
    log_dir_of,
    record_file_of,
    start_script_of,
    stderr_log_of,
    stdout_log_of,
    stop_script_of,
};
use crate::liveness::lock_verdict;
use crate::protocol::{ActionView, EventView, RecordReadView};
use crate::session::{Command, SessionView, Stage};
use crate::world::{enough_steps, perform, run_from, Chance, Node, World};

verus! {

/// Making an app under a name that is taken fails with `AlreadyExists`,
/// whatever stands at that path and whatever lies below it, and changes
/// nothing.
pub proof fn law_create_refuses_taken_name(
    base: Seq<char>,
    name: Seq<char>,
    world: World,
    chance: Chance,
)
    requires
        world.has(app_dir_of(base, name)),
    ensures
        perform(base, name, Command::Create, world, chance).failed_with(ErrorKind::AlreadyExists),
        perform(base, name, Command::Create, world, chance).world == world,
{
    reveal_with_fuel(run_from, 3);
}

/// No two of the paths of an app are the same: not the directory, the two
/// scripts, the record, the lock file, the log directory and the two logs.
pub open spec fn paths_apart(dir: Seq<char>) -> bool {
    &&& dir != start_script_of(dir)
    &&& dir != stop_script_of(dir)
    &&& dir != record_file_of(dir)
    &&& dir != lock_file_of(dir)
    &&& dir != log_dir_of(dir)
    &&& dir != stdout_log_of(dir)
    &&& dir != stderr_log_of(dir)
    &&& start_script_of(dir) != stop_script_of(dir)
    &&& start_script_of(dir) != record_file_of(dir)
    &&& start_script_of(dir) != lock_file_of(dir)
    &&& start_script_of(dir) != log_dir_of(dir)
    &&& start_script_of(dir) != stdout_log_of(dir)
    &&& start_script_of(dir) != stderr_log_of(dir)
    &&& stop_script_of(dir) != record_file_of(dir)
    &&& stop_script_of(dir) != lock_file_of(dir)
    &&& stop_script_of(dir) != log_dir_of(dir)
    &&& stop_script_of(dir) != stdout_log_of(dir)
    &&& stop_script_of(dir) != stderr_log_of(dir)
    &&& record_file_of(dir) != lock_file_of(dir)
    &&& record_file_of(dir) != log_dir_of(dir)
    &&& record_file_of(dir) != stdout_log_of(dir)
    &&& record_file_of(dir) != stderr_log_of(dir)
    &&& lock_file_of(dir) != log_dir_of(dir)
    &&& lock_file_of(dir) != stdout_log_of(dir)
    &&& lock_file_of(dir) != stderr_log_of(dir)
    &&& log_dir_of(dir) != stdout_log_of(dir)
    &&& log_dir_of(dir) != stderr_log_of(dir)
    &&& stdout_log_of(dir) != stderr_log_of(dir)
}

/// The paths of an app lie in the tree of its directory and are all
/// different.
proof fn lemma_paths(dir: Seq<char>)
    ensures
        in_tree(dir, dir),
        in_tree(dir, start_script_of(dir)),
        in_tree(dir, stop_script_of(dir)),
        in_tree(dir, record_file_of(dir)),
        in_tree(dir, lock_file_of(dir)),
        in_tree(dir, log_dir_of(dir)),
        in_tree(dir, stdout_log_of(dir)),
        in_tree(dir, stderr_log_of(dir)),
        paths_apart(dir),
{
    lemma_app_paths_distinct(dir);
    let paths = app_paths(dir);
    assert(paths[0] == start_script_of(dir));
    assert(paths[1] == stop_script_of(dir));
    assert(paths[2] == record_file_of(dir));
    assert(paths[3] == lock_file_of(dir));
    assert(paths[4] == log_dir_of(dir));
    assert(paths[5] == stdout_log_of(dir));
    assert(paths[6] == stderr_log_of(dir));
}

/// Making an app under a new name succeeds. Right afterwards the lock of
/// the app is free, so the app does not count as running, and its record
/// reads as that of an app that was never launched.
#[verifier::rlimit(60)]
pub proof fn law_create_makes_idle_app(
    base: Seq<char>,
    name: Seq<char>,
    world: World,
    chance: Chance,
)
    requires
        world.vacant(app_dir_of(base, name)),
    ensures
        ({
            let dir = app_dir_of(base, name);
            let end = perform(base, name, Command::Create, world, chance);
            &&& end.succeeded()
            &&& lock_verdict(dir, end.world.probe(lock_file_of(dir))) == Ok::<bool, ErrorView>(
                false,
            )
            &&& end.world.read_record(record_file_of(dir), chance.why) == RecordReadView::Loaded(
                AppView::fresh(name, chance.now),
            )
            &&& AppView::fresh(name, chance.now).num_runs == 0
            &&& AppView::fresh(name, chance.now).last_run is None
        }),
{
    let dir = app_dir_of(base, name);
    lemma_paths(dir);
    reveal_with_fuel(run_from, 8);
}

/// The world after a launch that succeeded, written out: the log
/// directory is there, both logs are empty, the lock file is there and
/// held by the new process, and the record holds the launch.
pub open spec fn launched_world(dir: Seq<char>, world: World, before: AppView, chance: Chance) -> World {
    World {
        nodes: world.nodes.insert(log_dir_of(dir), Node::Dir).insert(
            stdout_log_of(dir),
            Node::Text(Seq::empty()),
        ).insert(stderr_log_of(dir), Node::Text(Seq::empty())).insert(
            lock_file_of(dir),
            Node::Text(Seq::empty()),
        ).insert(record_file_of(dir), Node::Record(before.launched(chance.now, chance.pid))),
        locks: world.locks.insert(lock_file_of(dir), chance.pid),
    }
}

/// A launch succeeds only where the app and its start script are there,
/// the record can be read and the lock is free; and then it leaves
/// [`launched_world`].
#[verifier::rlimit(60)]
proof fn lemma_run_course(base: Seq<char>, name: Seq<char>, world: World, chance: Chance)
    requires
        world.sound(),
        perform(base, name, Command::Run, world, chance).succeeded(),
    ensures
        ({
            let dir = app_dir_of(base, name);
            let end = perform(base, name, Command::Run, world, chance);
            &&& world.has(dir)
            &&& world.has(start_script_of(dir))
            &&& !world.held(lock_file_of(dir))
            &&& !world.is_dir(lock_file_of(dir))
            &&& world.read_record(record_file_of(dir), chance.why) matches RecordReadView::Loaded(
                before,
            )
            &&& end.world == launched_world(dir, world, before, chance)
        }),
{
    let dir = app_dir_of(base, name);
    let now = chance.now;
    let s0 = SessionView::initial(base, name, Command::Run);
    reveal_with_fuel(run_from, 3);
    let (s1, a1) = s0.next(EventView::Begin, now);
    let (w1, e1) = world.respond(a1, chance);
    let (s2, a2) = s1.next(e1, now);
    assert(world.has(dir));
    let (w2, e2) = w1.respond(a2, chance);
    let (s3, a3) = s2.next(e2, now);
    assert(world.has(start_script_of(dir)));
    let (w3, e3) = w2.respond(a3, chance);
    assert(perform(base, name, Command::Run, world, chance) == run_from(
        s3,
        w3,
        e3,
        chance,
        13,
    ));
    let (s4, a4) = s3.next(e3, now);
    assert(e3 matches EventView::Record(RecordReadView::Loaded(_)));
    let (w4, e4) = w3.respond(a4, chance);
    let (s5, a5) = s4.next(e4, now);
    assert(w4 == world);
    assert(a5 is Launch);
    let (w5, e5) = w4.respond(a5, chance);
    let (s6, a6) = s5.next(e5, now);
    assert(a6 is SaveRecord);
    let (w6, e6) = w5.respond(a6, chance);
    assert(run_from(s3, w3, e3, chance, 13) == run_from(s6, w6, e6, chance, 10));
    let (s7, a7) = s6.next(e6, now);
    let (w7, e7) = w6.respond(a7, chance);
    let (s8, a8) = s7.next(e7, now);
    assert(a8 is Finish);
    let end = perform(base, name, Command::Run, world, chance);
    assert(end.world == w7);
    let before = e3->Record_0->Loaded_0;
    assert(a7 is Print);
    assert(w7 == launched_world(dir, world, before, chance));
}

/// A launch succeeds where the app and its start script are there, the
/// record can be read and can count one more launch, the lock is free and
/// nothing stands in the way of the log directory, the logs or the record.
#[verifier::rlimit(60)]
pub proof fn law_run_succeeds(
    base: Seq<char>,
    name: Seq<char>,
    world: World,
    chance: Chance,
    record: AppView,
)
    requires
        world.has(app_dir_of(base, name)),
        world.has(start_script_of(app_dir_of(base, name))),
        world.nodes[record_file_of(app_dir_of(base, name))] == Node::Record(record),
        world.has(record_file_of(app_dir_of(base, name))),
        record.num_runs < u64::MAX,
        !world.held(lock_file_of(app_dir_of(base, name))),
        !world.is_dir(lock_file_of(app_dir_of(base, name))),
        !world.is_file(log_dir_of(app_dir_of(base, name))),
        !world.is_dir(stdout_log_of(app_dir_of(base, name))),
        !world.is_dir(stderr_log_of(app_dir_of(base, name))),
    ensures
        perform(base, name, Command::Run, world, chance).succeeded(),
{
    let dir = app_dir_of(base, name);
    lemma_paths(dir);
    reveal_with_fuel(run_from, 9);
}

/// After a launch that succeeded the lock of the app is held by the new
/// process, so the app counts as running; the record holds the launch and
/// counts one more; and another launch fails with `AlreadyRunning`.
#[verifier::rlimit(60)]
pub proof fn law_run_takes_lock(
    base: Seq<char>,
    name: Seq<char>,
    world: World,
    chance: Chance,
    later: Chance,
)
    requires
        world.sound(),
        perform(base, name, Command::Run, world, chance).succeeded(),
    ensures
        ({
            let dir = app_dir_of(base, name);
            let end = perform(base, name, Command::Run, world, chance);
            &&& !world.held(lock_file_of(dir))
            &&& end.world.held(lock_file_of(dir))
            &&& end.world.locks[lock_file_of(dir)] == chance.pid
            &&& lock_verdict(dir, end.world.probe(lock_file_of(dir))) == Ok::<bool, ErrorView>(
                true,
            )
            &&& world.read_record(record_file_of(dir), chance.why) matches RecordReadView::Loaded(
                before,
            )
            &&& end.world.read_record(record_file_of(dir), later.why) == RecordReadView::Loaded(
                before.launched(chance.now, chance.pid),
            )
            &&& perform(base, name, Command::Run, end.world, later).failed_with(
                ErrorKind::AlreadyRunning,
            )
        }),
{
    let dir = app_dir_of(base, name);
    lemma_run_course(base, name, world, chance);
    lemma_paths(dir);
    reveal_with_fuel(run_from, 6);
}

/// Whether an app counts as running is read off the lock alone. Once the
/// process of a launch has ended the lock is free and the app does not
/// count as running, although the record still holds the process id of
/// that launch.
pub proof fn law_exit_frees_lock(base: Seq<char>, name: Seq<char>, world: World, chance: Chance)
    requires
        world.sound(),
        perform(base, name, Command::Run, world, chance).succeeded(),
    ensures
        ({
            let dir = app_dir_of(base, name);
            let end = perform(base, name, Command::Run, world, chance);
            let after = end.world.after_exit(chance.pid);
            &&& lock_verdict(dir, after.probe(lock_file_of(dir))) == Ok::<bool, ErrorView>(false)
            &&& after.read_record(record_file_of(dir), chance.why) matches RecordReadView::Loaded(
                record,
            )
            &&& record.last_pid() == Some(chance.pid)
        }),
{
    law_run_takes_lock(base, name, world, chance, chance);
    lemma_run_course(base, name, world, chance);
    let dir = app_dir_of(base, name);
    lemma_paths(dir);
}

/// What a probe of the lock shows does not depend on what the files hold:
/// the record can say anything.
pub proof fn law_probe_ignores_record(world: World, lock: Seq<char>, path: Seq<char>, node: Node)
    requires
        path != lock,
    ensures
        world.with(path, node).probe(lock) == world.probe(lock),
{
}

/// Writing back the record that was just read changes nothing: reading
/// and writing agree on what a record holds. (The model holds records by
/// their content; how they are spelled in the file is the caller's.)
pub proof fn law_save_of_load_changes_nothing(
    world: World,
    path: Seq<char>,
    record: AppView,
    chance: Chance,
)
    requires
        world.read_record(path, chance.why) == RecordReadView::Loaded(record),
    ensures
        world.respond(ActionView::SaveRecord { path, record }, chance) == (world, EventView::Done),
{
    let after = world.respond(ActionView::SaveRecord { path, record }, chance).0;
    assert(after.nodes =~= world.nodes);
}

/// Killing an app whose lock is free fails with `NotRunning`, whatever the
/// record holds, and changes nothing.
pub proof fn law_kill_needs_running(base: Seq<char>, name: Seq<char>, world: World, chance: Chance)
    requires
        world.has(app_dir_of(base, name)),
        !world.held(lock_file_of(app_dir_of(base, name))),
        !world.is_dir(lock_file_of(app_dir_of(base, name))),
    ensures
        perform(base, name, Command::Kill, world, chance).failed_with(ErrorKind::NotRunning),
        perform(base, name, Command::Kill, world, chance).world == world,
{
    reveal_with_fuel(run_from, 4);
}

/// Killing an app whose lock is held and whose record holds no launch
/// fails with `NoRecordedPid` and changes nothing.
pub proof fn law_kill_needs_pid(
    base: Seq<char>,
    name: Seq<char>,
    world: World,
    chance: Chance,
    record: AppView,
)
    requires
        world.has(app_dir_of(base, name)),
        world.is_file(lock_file_of(app_dir_of(base, name))),
        world.held(lock_file_of(app_dir_of(base, name))),
        world.read_record(record_file_of(app_dir_of(base, name)), chance.why)
            == RecordReadView::Loaded(record),
        record.last_run is None,
    ensures
        perform(base, name, Command::Kill, world, chance).failed_with(ErrorKind::NoRecordedPid),
        perform(base, name, Command::Kill, world, chance).world == world,
{
    reveal_with_fuel(run_from, 5);
}

/// Stopping an app whose lock is free fails with `NotRunning`, unless it
/// is forced, and changes nothing.
pub proof fn law_stop_needs_running(base: Seq<char>, name: Seq<char>, world: World, chance: Chance)
    requires
        world.has(app_dir_of(base, name)),
        world.has(stop_script_of(app_dir_of(base, name))),
        !world.held(lock_file_of(app_dir_of(base, name))),
        !world.is_dir(lock_file_of(app_dir_of(base, name))),
    ensures
        perform(base, name, Command::Stop { force: false }, world, chance).failed_with(
            ErrorKind::NotRunning,
        ),
        perform(base, name, Command::Stop { force: false }, world, chance).world == world,
{
    reveal_with_fuel(run_from, 5);
}

/// The commands that only look, stop or kill: they write no file.
pub open spec fn writes_nothing(command: Command) -> bool {
    match command {
        Command::Status => true,
        Command::Stop { .. } => true,
        Command::Kill => true,
        Command::ListEntry { .. } => true,
        Command::PsEntry { .. } => true,
        Command::CountEntry => true,
        _ => false,
    }
}

/// The actions that leave every file and every lock as they are.
pub open spec fn looks_only(action: ActionView) -> bool {
    match action {
        ActionView::Exists { .. } => true,
        ActionView::IsDir { .. } => true,
        ActionView::ReadRecord { .. } => true,
        ActionView::ProbeLock { .. } => true,
        ActionView::ReadText { .. } => true,
        ActionView::Run { .. } => true,
        ActionView::Print { .. } => true,
        ActionView::Warn { .. } => true,
        ActionView::Finish { .. } => true,
        _ => false,
    }
}

proof fn lemma_quiet_step(session: SessionView, event: EventView, now: Seq<char>)
    requires
        writes_nothing(session.command),
    ensures
        looks_only(session.next(event, now).1),
        session.next(event, now).0.command == session.command,
{
    lemma_all_steps(session, event, now);
}

proof fn lemma_quiet_course(
    session: SessionView,
    world: World,
    event: EventView,
    chance: Chance,
    steps: nat,
)
    requires
        writes_nothing(session.command),
    ensures
        run_from(session, world, event, chance, steps).world == world,
    decreases steps,
{
    lemma_quiet_step(session, event, chance.now);
    let (after, action) = session.next(event, chance.now);
    if !(action is Finish) && steps > 0 {
        let (changed, answer) = world.respond(action, chance);
        assert(changed == world);
        lemma_quiet_course(after, changed, answer, chance, (steps - 1) as nat);
    }
}

/// Showing the status, stopping, killing and listing leave the files and
/// the locks as they are, however they end: in particular neither way of
/// stopping an app touches its record. (What the stop script or the kill
/// signal does to the process is not in the model.)
pub proof fn law_stop_and_kill_write_nothing(
    base: Seq<char>,
    name: Seq<char>,
    command: Command,
    world: World,
    chance: Chance,
)
    requires
        writes_nothing(command),
    ensures
        perform(base, name, command, world, chance).world == world,
{
    lemma_quiet_course(
        SessionView::initial(base, name, command),
        world,
        EventView::Begin,
        chance,
        enough_steps(),
    );
}

/// Removing an app whose lock is held fails with `AlreadyRunning` and
/// changes nothing.
pub proof fn law_delete_spares_running(
    base: Seq<char>,
    name: Seq<char>,
    world: World,
    chance: Chance,
)
    requires
        world.has(app_dir_of(base, name)),
        world.is_file(lock_file_of(app_dir_of(base, name))),
        world.held(lock_file_of(app_dir_of(base, name))),
    ensures
        perform(base, name, Command::Delete, world, chance).failed_with(ErrorKind::AlreadyRunning),
        perform(base, name, Command::Delete, world, chance).world == world,
{
    reveal_with_fuel(run_from, 4);
}

/// Removing an app whose lock is free succeeds and leaves nothing of it:
/// nothing stands at its directory or below. A command that needs the app
/// then fails with `NotFound`.
#[verifier::rlimit(60)]
pub proof fn law_delete_removes_all(
    base: Seq<char>,
    name: Seq<char>,
    world: World,
    chance: Chance,
    later: Chance,
)
    requires
        world.is_dir(app_dir_of(base, name)),
        !world.held(lock_file_of(app_dir_of(base, name))),
        !world.is_dir(lock_file_of(app_dir_of(base, name))),
    ensures
        ({
            let dir = app_dir_of(base, name);
            let end = perform(base, name, Command::Delete, world, chance);
            &&& end.succeeded()
            &&& end.world == world.without_tree(dir)
            &&& end.world.vacant(dir)
            &&& !end.world.has(record_file_of(dir))
            &&& perform(base, name, Command::Status, end.world, later).failed_with(
                ErrorKind::NotFound,
            )
            &&& perform(base, name, Command::Run, end.world, later).failed_with(
                ErrorKind::NotFound,
            )
            &&& perform(base, name, Command::Kill, end.world, later).failed_with(
                ErrorKind::NotFound,
            )
        }),
{
    let dir = app_dir_of(base, name);
    lemma_paths(dir);
    reveal_with_fuel(run_from, 6);
}

/// Clearing logs succeeds wherever the log directory can be made and no
/// directory stands in the place of a chosen log. A chosen log that exists
/// is empty afterwards; one that does not exist still does not; a log that
/// was not chosen is as it was; and no lock changes hands.
#[verifier::rlimit(60)]
pub proof fn law_clear_empties_logs(
    base: Seq<char>,
    name: Seq<char>,
    stdout: bool,
    stderr: bool,
    world: World,
    chance: Chance,
)
    requires
        world.has(app_dir_of(base, name)),
        !world.is_file(log_dir_of(app_dir_of(base, name))),
        stdout ==> !world.is_dir(stdout_log_of(app_dir_of(base, name))),
        stderr ==> !world.is_dir(stderr_log_of(app_dir_of(base, name))),
    ensures
        ({
            let dir = app_dir_of(base, name);
            let out = stdout_log_of(dir);
            let err = stderr_log_of(dir);
            let end = perform(base, name, Command::ClearLogs { stdout, stderr }, world, chance);
            &&& end.succeeded()
            &&& end.world.locks == world.locks
            &&& end.world.has(out) == world.has(out)
            &&& end.world.has(err) == world.has(err)
            &&& stdout && world.has(out) ==> end.world.nodes[out] == Node::Text(Seq::empty())
            &&& stderr && world.has(err) ==> end.world.nodes[err] == Node::Text(Seq::empty())
            &&& !stdout && world.has(out) ==> end.world.nodes[out] == world.nodes[out]
            &&& !stderr && world.has(err) ==> end.world.nodes[err] == world.nodes[err]
            &&& forall|path: Seq<char>|
                path != out && path != err && path != log_dir_of(dir) ==> (end.world.has(path)
                    == world.has(path) && (world.has(path) ==> end.world.nodes[path]
                    == world.nodes[path]))
        }),
{
    let dir = app_dir_of(base, name);
    lemma_paths(dir);
    reveal_with_fuel(run_from, 11);
}

/// A step keeps the command, the app and the base directory; it either
/// ends the command, and then the session is done, or takes it further.
pub open spec fn advances(session: SessionView, event: EventView, now: Seq<char>) -> bool {
    let (after, action) = session.next(event, now);
    &&& after.command == session.command
    &&& after.name == session.name
    &&& after.base == session.base
    &&& session.progress() <= 8
    &&& action is Finish <==> after.stage == Stage::Done
    &&& !(action is Finish) ==> after.progress() > session.progress()
}

/// The process id that `kill` aims at: that of the last launch in the
/// record.
pub open spec fn kill_aim(session: SessionView) -> Option<crate::launch::InvocationView> {
    match session.record {
        Some(app) => match app.last_run {
            Some(last) => Some(crate::kill::kill_command_of(last.pid)),
            None => None,
        },
        None => None,
    }
}

/// Whether `event` is the answer of a probe that found the lock free.
pub open spec fn found_free(session: SessionView, event: EventView) -> bool {
    match event {
        EventView::Lock(probe) => lock_verdict(session.dir(), probe) == Ok::<bool, ErrorView>(
            false,
        ),
        _ => false,
    }
}

/// What is done to an app is done on the strength of the right answer. A
/// launch is named only by `run` and only in answer to a probe that found
/// the lock free; a removal only by `delete` and only in answer to such a
/// probe. A program is run only by `stop`, `kill` and the following of a
/// log, and by `kill` only with the process id of the record. The record
/// is written only by `create` and `run`, and a session that does not
/// launch keeps the record that it read. And `run` prints that the app is
/// started only once the record is written.
pub open spec fn guarded(session: SessionView, event: EventView, now: Seq<char>) -> bool {
    let (after, action) = session.next(event, now);
    &&& action is Launch ==> session.command == Command::Run && session.stage == Stage::Probe
        && found_free(session, event)
    &&& action is RemoveDir ==> session.command == Command::Delete && session.stage
        == Stage::Probe && found_free(session, event)
    &&& action is CreateRecord ==> session.command == Command::Create
    &&& action is SaveRecord ==> session.command == Command::Run
    &&& action is InstallScript ==> session.command == Command::Create
    &&& action is Print && session.command == Command::Run ==> session.stage
        == Stage::WriteRecord && event is Done
    &&& action is Truncate ==> session.command is ClearLogs
    &&& action is Run ==> session.command is Stop || session.command == Command::Kill
        || session.command is ShowLogs
    &&& action is Run && session.command == Command::Kill ==> kill_aim(session) == Some(
        action->command,
    )
    &&& session.command != Command::Run && !(event is Record) ==> after.record == session.record
}

proof fn lemma_create_steps(session: SessionView, event: EventView, now: Seq<char>)
    requires
        session.command == Command::Create,
    ensures
        advances(session, event, now),
        guarded(session, event, now),
{
}

#[verifier::rlimit(60)]
proof fn lemma_run_steps(session: SessionView, event: EventView, now: Seq<char>)
    requires
        session.command == Command::Run,
    ensures
        advances(session, event, now),
        guarded(session, event, now),
{
}

proof fn lemma_status_steps(session: SessionView, event: EventView, now: Seq<char>)
    requires
        session.command == Command::Status,
    ensures
        advances(session, event, now),
        guarded(session, event, now),
{
}

proof fn lemma_stop_steps(session: SessionView, event: EventView, now: Seq<char>)
    requires
        session.command is Stop,
    ensures
        advances(session, event, now),
        guarded(session, event, now),
{
}

proof fn lemma_kill_steps(session: SessionView, event: EventView, now: Seq<char>)
    requires
        session.command == Command::Kill,
    ensures
        advances(session, event, now),
        guarded(session, event, now),
{
}

proof fn lemma_delete_steps(session: SessionView, event: EventView, now: Seq<char>)
    requires
        session.command == Command::Delete,
    ensures
        advances(session, event, now),
        guarded(session, event, now),
{
}

#[verifier::rlimit(60)]
proof fn lemma_clear_steps(session: SessionView, event: EventView, now: Seq<char>)
    requires
        session.command is ClearLogs,
    ensures
        advances(session, event, now),
        guarded(session, event, now),
{
}

proof fn lemma_show_steps(session: SessionView, event: EventView, now: Seq<char>)
    requires
        session.command is ShowLogs,
    ensures
        advances(session, event, now),
        guarded(session, event, now),
{
}

proof fn lemma_entry_steps(session: SessionView, event: EventView, now: Seq<char>)
    requires
        session.command is ListEntry || session.command is PsEntry || session.command
            == Command::CountEntry,
    ensures
        advances(session, event, now),
        guarded(session, event, now),
{
}

/// No command goes in circles, whatever the answers are: every step
/// [`advances`].
pub proof fn law_steps_advance(session: SessionView, event: EventView, now: Seq<char>)
    ensures
        advances(session, event, now),
{
    lemma_all_steps(session, event, now);
}

/// Every step is [`guarded`].
pub proof fn law_acts_are_guarded(session: SessionView, event: EventView, now: Seq<char>)
    ensures
        guarded(session, event, now),
{
    lemma_all_steps(session, event, now);
}

proof fn lemma_all_steps(session: SessionView, event: EventView, now: Seq<char>)
    ensures
        advances(session, event, now),
        guarded(session, event, now),
{
    match session.command {
        Command::Create => lemma_create_steps(session, event, now),
        Command::Run => lemma_run_steps(session, event, now),
        Command::Status => lemma_status_steps(session, event, now),
        Command::Stop { .. } => lemma_stop_steps(session, event, now),
        Command::Kill => lemma_kill_steps(session, event, now),
        Command::Delete => lemma_delete_steps(session, event, now),
        Command::ClearLogs { .. } => lemma_clear_steps(session, event, now),
        Command::ShowLogs { .. } => lemma_show_steps(session, event, now),
        _ => lemma_entry_steps(session, event, now),
    }
}

/// The time matters to a step only where the session says that it reads
/// the clock.
#[verifier::rlimit(60)]
pub proof fn law_clock_read_where_said(
    session: SessionView,
    event: EventView,
    now: Seq<char>,
    other: Seq<char>,
)
    requires
        !session.reads_clock(),
    ensures
        session.next(event, now) == session.next(event, other),
{
}

/// A session that has enough steps left for the rest of its way ends.
proof fn lemma_ends(
    session: SessionView,
    world: World,
    event: EventView,
    chance: Chance,
    steps: nat,
)
    requires
        steps + session.progress() >= 9,
    ensures
        run_from(session, world, event, chance, steps).result is Some,
        run_from(session, world, event, chance, steps).session.stage == Stage::Done,
    decreases steps,
{
    law_steps_advance(session, event, chance.now);
    let (after, action) = session.next(event, chance.now);
    if !(action is Finish) {
        law_steps_advance(after, event, chance.now);
        if steps > 0 {
            let (changed, answer) = world.respond(action, chance);
            lemma_ends(after, changed, answer, chance, (steps - 1) as nat);
        }
    }
}

/// Every command comes to an end, whatever the world is like.
pub proof fn law_commands_end(
    base: Seq<char>,
    name: Seq<char>,
    command: Command,
    world: World,
    chance: Chance,
)
    ensures
        perform(base, name, command, world, chance).result is Some,
        perform(base, name, command, world, chance).session.stage == Stage::Done,
{
    lemma_ends(
        SessionView::initial(base, name, command),
        world,
        EventView::Begin,
        chance,
        enough_steps(),
    );
}

} // verus!
