//! The record that is kept for each app: when it was created, how often it
//! was launched, and what the last launch was.

use vstd::prelude::*;

verus! {

/// When an app was last launched, and under which process id.
#[derive(Debug)]
pub struct LastRunInfo {
    /// Timestamp of the launch.
    pub time: String,
    /// Process id that the launch returned.
    pub pid: u32,
}

/// Mathematical content of a [`LastRunInfo`].
pub struct LastRunView {
    pub time: Seq<char>,
    pub pid: u32,
}

impl View for LastRunInfo {
    type V = LastRunView;

    open spec fn view(&self) -> LastRunView {
        LastRunView { time: self.time@, pid: self.pid }
    }
}

/// The persisted record of one app.
#[derive(Debug)]
pub struct App {
    /// Name of the app; the same as the name of its directory.
    pub name: String,
    /// Timestamp of creation; never changed afterwards.
    pub created_at: String,
    /// The last launch, absent until the first one.
    pub last_run: Option<LastRunInfo>,
    /// Number of launches so far.
    pub num_runs: u64,
}

/// Mathematical content of an [`App`].
pub struct AppView {
    pub name: Seq<char>,
    pub created_at: Seq<char>,
    pub last_run: Option<LastRunView>,
    pub num_runs: nat,
}

impl View for App {
    type V = AppView;

    open spec fn view(&self) -> AppView {
        AppView {
            name: self.name@,
            created_at: self.created_at@,
            last_run: match self.last_run {
                Some(run) => Some(run@),
                None => None,
            },
            num_runs: self.num_runs as nat,
        }
    }
}

impl AppView {
    /// The record of an app that was just created.
    pub open spec fn fresh(name: Seq<char>, created_at: Seq<char>) -> AppView {
        AppView { name, created_at, last_run: None, num_runs: 0 }
    }

    /// The record after one more launch: the last launch is overwritten and
    /// the counter grows by exactly one.
    pub open spec fn launched(self, time: Seq<char>, pid: u32) -> AppView {
        AppView {
            last_run: Some(LastRunView { time, pid }),
            num_runs: self.num_runs + 1,
            ..self
        }
    }

    /// A record tells a consistent story when it has a last launch exactly
    /// if it counts at least one.
    pub open spec fn consistent(self) -> bool {
        self.num_runs == 0 <==> self.last_run is None
    }

    /// The process id of the last launch, if there was one.
    pub open spec fn last_pid(self) -> Option<u32> {
        match self.last_run {
            Some(run) => Some(run.pid),
            None => None,
        }
    }
}

impl LastRunInfo {
    /// A copy with the same content.
    pub fn duplicate(&self) -> (r: LastRunInfo)
        ensures
            r@ == self@,
    {
        LastRunInfo { time: self.time.clone(), pid: self.pid }
    }
}

impl App {
    /// The record of an app created at `created_at`: never launched.
    pub fn new(name: &str, created_at: String) -> (app: App)
        ensures
            app@ == AppView::fresh(name@, created_at@),
            app@.consistent(),
    {
        App { name: name.to_owned(), created_at, last_run: None, num_runs: 0 }
    }

    /// Whether one more launch can still be counted.
    pub fn can_count_launch(&self) -> (r: bool)
        ensures
            r == (self.num_runs < u64::MAX),
    {
        self.num_runs < u64::MAX
    }

    /// Notes a launch at `time` under process id `pid`.
    pub fn record_launch(&mut self, time: String, pid: u32)
        requires
            old(self).num_runs < u64::MAX,
        ensures
            final(self)@ == old(self)@.launched(time@, pid),
    {
        self.last_run = Some(LastRunInfo { time, pid });
        self.num_runs = self.num_runs + 1;
    }

    /// The process id of the last launch, if there was one.
    pub fn last_pid(&self) -> (r: Option<u32>)
        ensures
            r == self@.last_pid(),
    {
        match &self.last_run {
            Some(run) => Some(run.pid),
            None => None,
        }
    }

    /// A copy with the same content.
    pub fn duplicate(&self) -> (r: App)
        ensures
            r@ == self@,
    {
        let last_run = match &self.last_run {
            Some(run) => Some(run.duplicate()),
            None => None,
        };
        App {
            name: self.name.clone(),
            created_at: self.created_at.clone(),
            last_run,
            num_runs: self.num_runs,
        }
    }
}

/// A launch keeps name and creation time, sets the last launch and makes a
/// consistent record of any record.
pub proof fn lemma_launch_keeps_identity(app: AppView, time: Seq<char>, pid: u32)
    ensures
        app.launched(time, pid).name == app.name,
        app.launched(time, pid).created_at == app.created_at,
        app.launched(time, pid).num_runs == app.num_runs + 1,
        app.launched(time, pid).last_pid() == Some(pid),
        app.launched(time, pid).consistent(),
{
}

} // verus!
