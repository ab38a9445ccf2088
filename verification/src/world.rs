//! A model of the surroundings: the files and locks that the actions work
//! on, and what an orderly system answers to each action.
//!
//! The model exists to state what a whole command achieves. It knows
//! directories, files and who holds which lock; it does not know
//! permissions, full disks or races between two commands. What a program
//! that is run does to the files is outside the model: there a run leaves
//! everything as it is.

use vstd::prelude::*;
use crate::app::AppView;
use crate::error::ErrorView;
use crate::layout::in_tree;
use crate::liveness::LockProbeView;
use crate::protocol::{ActionView, EventView, LaunchOutcomeView, RecordReadView, ScriptOutcome};
use crate::session::{Command, SessionView};

verus! {

/// What stands at a path.
pub enum Node {
    /// A directory.
    Dir,
    /// A file that holds a text.
    Text(Seq<char>),
    /// A file that holds a well-formed record.
    Record(AppView),
}

/// The files, and the locks that are held.
pub struct World {
    /// What stands at each path that exists.
    pub nodes: Map<Seq<char>, Node>,
    /// For each lock file whose lock is held, the process that holds it.
    pub locks: Map<Seq<char>, u32>,
}

/// What the model leaves to chance in the course of one command.
pub struct Chance {
    /// The time at which timestamps are written.
    pub now: Seq<char>,
    /// The process id that a launch returns.
    pub pid: u32,
    /// Whether a program that is run reports success.
    pub success: bool,
    /// The exit status of such a program, in words.
    pub status: Seq<char>,
    /// The system's description of a failure.
    pub why: Seq<char>,
}

/// What the wrapper writes to its standard error when the lock is taken.
pub open spec fn refusal_text() -> Seq<char> {
    "app already running\n"@
}

impl World {
    /// Whether anything stands at `path`.
    pub open spec fn has(self, path: Seq<char>) -> bool {
        self.nodes.dom().contains(path)
    }

    /// Whether a directory stands at `path`.
    pub open spec fn is_dir(self, path: Seq<char>) -> bool {
        self.has(path) && self.nodes[path] is Dir
    }

    /// Whether a file stands at `path`.
    pub open spec fn is_file(self, path: Seq<char>) -> bool {
        self.has(path) && !(self.nodes[path] is Dir)
    }

    /// Whether the lock on `path` is held.
    pub open spec fn held(self, path: Seq<char>) -> bool {
        self.locks.dom().contains(path)
    }

    /// A lock is held only on a file that is there.
    pub open spec fn sound(self) -> bool {
        forall|path: Seq<char>| #[trigger] self.held(path) ==> self.is_file(path)
    }

    /// Nothing stands at `dir` or below it, and no lock below it is held.
    pub open spec fn vacant(self, dir: Seq<char>) -> bool {
        forall|path: Seq<char>| #[trigger]
            in_tree(dir, path) ==> !self.has(path) && !self.held(path)
    }

    /// The world with `node` at `path`.
    pub open spec fn with(self, path: Seq<char>, node: Node) -> World {
        World { nodes: self.nodes.insert(path, node), ..self }
    }

    /// The world without `dir` and all that lies below it.
    pub open spec fn without_tree(self, dir: Seq<char>) -> World {
        World {
            nodes: self.nodes.remove_keys(Set::new(|path: Seq<char>| in_tree(dir, path))),
            locks: self.locks.remove_keys(Set::new(|path: Seq<char>| in_tree(dir, path))),
        }
    }

    /// The world after the process `pid` has ended: the locks that it held
    /// are free.
    pub open spec fn after_exit(self, pid: u32) -> World {
        World {
            locks: self.locks.remove_keys(
                Set::new(|path: Seq<char>| self.held(path) && self.locks[path] == pid),
            ),
            ..self
        }
    }

    /// What a probe of the lock on `path` shows.
    pub open spec fn probe(self, path: Seq<char>) -> LockProbeView {
        if !self.has(path) {
            LockProbeView::Absent
        } else if self.is_dir(path) {
            LockProbeView::Unreadable("Is a directory"@)
        } else if self.held(path) {
            LockProbeView::Held
        } else {
            LockProbeView::Free
        }
    }

    /// What reading the record at `path` gives.
    pub open spec fn read_record(self, path: Seq<char>, why: Seq<char>) -> RecordReadView {
        if self.has(path) {
            match self.nodes[path] {
                Node::Record(app) => RecordReadView::Loaded(app),
                Node::Text(_) => RecordReadView::Corrupt(why),
                Node::Dir => RecordReadView::Unreadable(why),
            }
        } else {
            RecordReadView::Unreadable(why)
        }
    }

    /// The world after a launch, and the process id returned. The logs are
    /// emptied and the lock file is there. Where the lock is free the new
    /// process holds it; where it is taken the wrapper leaves its
    /// complaint in the log of standard error and nothing else changes.
    pub open spec fn launch(
        self,
        log_dir: Seq<char>,
        stdout_log: Seq<char>,
        stderr_log: Seq<char>,
        lock_file: Seq<char>,
        chance: Chance,
    ) -> (World, EventView) {
        if self.is_file(log_dir) {
            (self, EventView::Launched(LaunchOutcomeView::LogDirFailed(chance.why)))
        } else if self.is_dir(stdout_log) {
            (
                self.with(log_dir, Node::Dir),
                EventView::Launched(LaunchOutcomeView::StdoutFailed(chance.why)),
            )
        } else if self.is_dir(stderr_log) {
            (
                self.with(log_dir, Node::Dir).with(stdout_log, Node::Text(Seq::empty())),
                EventView::Launched(LaunchOutcomeView::StderrFailed(chance.why)),
            )
        } else {
            let cleared = self.with(log_dir, Node::Dir).with(
                stdout_log,
                Node::Text(Seq::empty()),
            );
            let after = if self.held(lock_file) || self.is_dir(lock_file) {
                cleared.with(stderr_log, Node::Text(refusal_text()))
            } else {
                World {
                    locks: self.locks.insert(lock_file, chance.pid),
                    ..cleared.with(stderr_log, Node::Text(Seq::empty())).with(
                        lock_file,
                        Node::Text(Seq::empty()),
                    )
                }
            };
            (after, EventView::Launched(LaunchOutcomeView::Started(chance.pid)))
        }
    }

    /// The world after `action`, and the answer to it.
    pub open spec fn respond(self, action: ActionView, chance: Chance) -> (World, EventView) {
        match action {
            ActionView::Exists { path } => (self, EventView::Exists(self.has(path))),
            ActionView::IsDir { path } => (self, EventView::Exists(self.is_dir(path))),
            ActionView::CreateDir { path } => if self.is_file(path) {
                (self, EventView::Failed(chance.why))
            } else if self.has(path) {
                (self, EventView::Done)
            } else {
                (self.with(path, Node::Dir), EventView::Done)
            },
            ActionView::InstallScript { path, body, mode } => if self.has(path) {
                (self, EventView::Installed(ScriptOutcome::CreateFailed))
            } else {
                (self.with(path, Node::Text(body)), EventView::Installed(ScriptOutcome::Installed))
            },
            ActionView::CreateRecord { path, record } => if self.has(path) {
                (self, EventView::Failed(chance.why))
            } else {
                (self.with(path, Node::Record(record)), EventView::Done)
            },
            ActionView::SaveRecord { path, record } => if self.is_dir(path) {
                (self, EventView::Failed(chance.why))
            } else {
                (self.with(path, Node::Record(record)), EventView::Done)
            },
            ActionView::ReadRecord { path } => (
                self,
                EventView::Record(self.read_record(path, chance.why)),
            ),
            ActionView::ProbeLock { path } => (self, EventView::Lock(self.probe(path))),
            ActionView::Launch { plan } => self.launch(
                plan.log_dir,
                plan.stdout_log,
                plan.stderr_log,
                plan.lock_file,
                chance,
            ),
            ActionView::Run { command } => (
                self,
                EventView::Exited { success: chance.success, status: chance.status },
            ),
            ActionView::RemoveDir { path } => if self.is_dir(path) {
                (self.without_tree(path), EventView::Done)
            } else {
                (self, EventView::Failed(chance.why))
            },
            ActionView::Truncate { path } => if self.is_file(path) {
                (self.with(path, Node::Text(Seq::empty())), EventView::Done)
            } else {
                (self, EventView::Failed(chance.why))
            },
            ActionView::ReadText { path } => if self.has(path) {
                match self.nodes[path] {
                    Node::Text(content) => (self, EventView::Text(content)),
                    _ => (self, EventView::Failed(chance.why)),
                }
            } else {
                (self, EventView::Failed(chance.why))
            },
            ActionView::Print { text } => (self, EventView::Done),
            ActionView::Warn { text } => (self, EventView::Done),
            ActionView::Finish { failure } => (self, EventView::Done),
        }
    }
}

/// How a command ended.
pub struct Ending {
    /// The world that it left.
    pub world: World,
    /// The session at its end.
    pub session: SessionView,
    /// `None` while the command has not finished; else its result, which is
    /// `None` for success and the failure otherwise.
    pub result: Option<Option<ErrorView>>,
}

impl Ending {
    /// The command finished with success.
    pub open spec fn succeeded(self) -> bool {
        self.result == Some(None::<ErrorView>)
    }

    /// The command finished with a failure of the given kind.
    pub open spec fn failed_with(self, kind: crate::error::ErrorKind) -> bool {
        match self.result {
            Some(Some(e)) => e.kind == kind,
            _ => false,
        }
    }
}

/// More steps than any command takes.
pub open spec fn enough_steps() -> nat {
    16
}

/// The course of a session from the answer `event` on, in the world
/// `world`, for at most `steps` further actions.
pub open spec fn run_from(
    session: SessionView,
    world: World,
    event: EventView,
    chance: Chance,
    steps: nat,
) -> Ending
    decreases steps,
{
    let (after, action) = session.next(event, chance.now);
    match action {
        ActionView::Finish { failure } => Ending {
            world,
            session: after,
            result: Some(failure),
        },
        _ => if steps == 0 {
            Ending { world, session: after, result: None }
        } else {
            let (changed, answer) = world.respond(action, chance);
            run_from(after, changed, answer, chance, (steps - 1) as nat)
        },
    }
}

/// The whole course of `command` on the app `name` under `base`.
pub open spec fn perform(
    base: Seq<char>,
    name: Seq<char>,
    command: Command,
    world: World,
    chance: Chance,
) -> Ending {
    run_from(
        SessionView::initial(base, name, command),
        world,
        EventView::Begin,
        chance,
        enough_steps(),
    )
}

/// No action, and no end of a process, makes a sound world unsound.
pub proof fn lemma_sound_stays(world: World, action: ActionView, chance: Chance)
    requires
        world.sound(),
    ensures
        world.respond(action, chance).0.sound(),
        world.after_exit(chance.pid).sound(),
{
    let after = world.respond(action, chance).0;
    assert forall|path: Seq<char>| #[trigger] after.held(path) implies after.is_file(path) by {
        if world.held(path) {
            assert(world.is_file(path));
        }
    }
    let ended = world.after_exit(chance.pid);
    assert forall|path: Seq<char>| #[trigger] ended.held(path) implies ended.is_file(path) by {
        assert(world.held(path));
    }
}

} // verus!
