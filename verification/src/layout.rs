//! Where things are: the directory of an app and the files in it.
//!
//! ```text
//! <base>/<name>/start.sh
//!               stop.sh
//!               app.json
//!               app.lock
//!               logs/stdout.log
//!               logs/stderr.log
//! ```
//!
//! Paths are texts, joined as Unix paths are.

use vstd::prelude::*;
use crate::text::concat2;

verus! {

/// File name of the script that starts an app.
pub const START_SCRIPT: &'static str = "start.sh";

/// File name of the script that stops an app.
pub const STOP_SCRIPT: &'static str = "stop.sh";

/// File name of the persisted record.
pub const RECORD_FILE: &'static str = "app.json";

/// File name of the advisory lock.
pub const LOCK_FILE: &'static str = "app.lock";

/// Name of the directory that holds the logs.
pub const LOG_DIR: &'static str = "logs";

/// File name of the log of standard output.
pub const STDOUT_LOG: &'static str = "stdout.log";

/// File name of the log of standard error.
pub const STDERR_LOG: &'static str = "stderr.log";

/// Directory name under a state home.
pub const STATE_HOME_SUFFIX: &'static str = "execmgr";

/// Base directory relative to a home directory.
pub const HOME_SUFFIX: &'static str = ".local/state/execmgr";

/// Base directory of last resort, relative to the working directory.
pub const FALLBACK_BASE: &'static str = ".execmgr";

/// `leaf` appended to the path `base`: an absolute `leaf` stands for
/// itself; otherwise one `/` is put between the two unless `base` is empty
/// or already ends in one.
pub open spec fn joined(base: Seq<char>, leaf: Seq<char>) -> Seq<char> {
    if leaf.len() > 0 && leaf[0] == '/' {
        leaf
    } else if base.len() > 0 && base.last() != '/' {
        base + "/"@ + leaf
    } else {
        base + leaf
    }
}

/// Joins two paths.
pub fn join(base: &str, leaf: &str) -> (path: String)
    ensures
        path@ == joined(base@, leaf@),
{
    let base_len = base.unicode_len();
    let leaf_len = leaf.unicode_len();
    if leaf_len > 0 && leaf.get_char(0) == '/' {
        leaf.to_owned()
    } else if base_len > 0 && base.get_char(base_len - 1) != '/' {
        let head = concat2(base, "/");
        concat2(head.as_str(), leaf)
    } else {
        concat2(base, leaf)
    }
}

/// The directory of the app `name` under `base`.
pub open spec fn app_dir_of(base: Seq<char>, name: Seq<char>) -> Seq<char> {
    joined(base, name)
}

/// The start script in `dir`.
pub open spec fn start_script_of(dir: Seq<char>) -> Seq<char> {
    joined(dir, START_SCRIPT@)
}

/// The stop script in `dir`.
pub open spec fn stop_script_of(dir: Seq<char>) -> Seq<char> {
    joined(dir, STOP_SCRIPT@)
}

/// The record file in `dir`.
pub open spec fn record_file_of(dir: Seq<char>) -> Seq<char> {
    joined(dir, RECORD_FILE@)
}

/// The lock file in `dir`.
pub open spec fn lock_file_of(dir: Seq<char>) -> Seq<char> {
    joined(dir, LOCK_FILE@)
}

/// The log directory in `dir`.
pub open spec fn log_dir_of(dir: Seq<char>) -> Seq<char> {
    joined(dir, LOG_DIR@)
}

/// The log of standard output in `dir`.
pub open spec fn stdout_log_of(dir: Seq<char>) -> Seq<char> {
    joined(log_dir_of(dir), STDOUT_LOG@)
}

/// The log of standard error in `dir`.
pub open spec fn stderr_log_of(dir: Seq<char>) -> Seq<char> {
    joined(log_dir_of(dir), STDERR_LOG@)
}

/// The directory of the app `name` under `base`.
pub fn app_dir(base: &str, name: &str) -> (path: String)
    ensures
        path@ == app_dir_of(base@, name@),
{
    join(base, name)
}

/// The start script of the app in `dir`.
pub fn start_script(dir: &str) -> (path: String)
    ensures
        path@ == start_script_of(dir@),
{
    join(dir, START_SCRIPT)
}

/// The stop script of the app in `dir`.
pub fn stop_script(dir: &str) -> (path: String)
    ensures
        path@ == stop_script_of(dir@),
{
    join(dir, STOP_SCRIPT)
}

/// The record file of the app in `dir`.
pub fn record_file(dir: &str) -> (path: String)
    ensures
        path@ == record_file_of(dir@),
{
    join(dir, RECORD_FILE)
}

/// The lock file of the app in `dir`.
pub fn lock_file(dir: &str) -> (path: String)
    ensures
        path@ == lock_file_of(dir@),
{
    join(dir, LOCK_FILE)
}

/// The log directory of the app in `dir`.
pub fn log_dir(dir: &str) -> (path: String)
    ensures
        path@ == log_dir_of(dir@),
{
    join(dir, LOG_DIR)
}

/// The two log files of an app.
#[derive(Debug)]
pub struct LogPath {
    /// Log of standard output.
    pub stdout: String,
    /// Log of standard error.
    pub stderr: String,
}

/// The two log files of the app in `app_dir`. The caller sees to it that
/// the log directory, [`log_dir`], exists before it opens either.
pub fn log_paths(app_dir: &str) -> (logs: LogPath)
    ensures
        logs.stdout@ == stdout_log_of(app_dir@),
        logs.stderr@ == stderr_log_of(app_dir@),
{
    let dir = join(app_dir, LOG_DIR);
    LogPath { stdout: join(dir.as_str(), STDOUT_LOG), stderr: join(dir.as_str(), STDERR_LOG) }
}

/// The base directory, from the settings that can name it: an explicit
/// override first, then a state home, then the home directory, then a
/// directory under the working directory.
pub open spec fn base_dir_of(
    explicit: Option<Seq<char>>,
    state_home: Option<Seq<char>>,
    home: Option<Seq<char>>,
) -> Seq<char> {
    match explicit {
        Some(dir) => dir,
        None => match state_home {
            Some(dir) => joined(dir, STATE_HOME_SUFFIX@),
            None => match home {
                Some(dir) => joined(dir, HOME_SUFFIX@),
                None => FALLBACK_BASE@,
            },
        },
    }
}

/// The view of an optional text.
pub open spec fn opt_text(text: Option<String>) -> Option<Seq<char>> {
    match text {
        Some(t) => Some(t@),
        None => None,
    }
}

/// Resolves the base directory from the values of the three settings, each
/// `None` where it is not set.
pub fn resolve_base_dir(
    explicit: Option<String>,
    state_home: Option<String>,
    home: Option<String>,
) -> (base: String)
    ensures
        base@ == base_dir_of(opt_text(explicit), opt_text(state_home), opt_text(home)),
{
    match explicit {
        Some(dir) => dir,
        None => match state_home {
            Some(dir) => join(dir.as_str(), STATE_HOME_SUFFIX),
            None => match home {
                Some(dir) => join(dir.as_str(), HOME_SUFFIX),
                None => FALLBACK_BASE.to_owned(),
            },
        },
    }
}

/// A leaf that is joined below a directory rather than replacing it.
pub open spec fn relative(leaf: Seq<char>) -> bool {
    leaf.len() > 0 && leaf[0] != '/'
}

/// Whether `path` is the directory `dir` or lies below it.
pub open spec fn in_tree(dir: Seq<char>, path: Seq<char>) -> bool {
    path == dir || exists|leaf: Seq<char>| relative(leaf) && path == #[trigger] joined(dir, leaf)
}

/// What is put in front of a relative leaf when it is joined to `base`.
pub open spec fn stem(base: Seq<char>) -> Seq<char> {
    if base.len() > 0 && base.last() != '/' {
        base + "/"@
    } else {
        base
    }
}

/// Joining a relative leaf puts the stem of the base in front of it.
pub proof fn lemma_joined_relative(base: Seq<char>, leaf: Seq<char>)
    requires
        relative(leaf),
    ensures
        joined(base, leaf) == stem(base) + leaf,
        joined(base, leaf).len() > base.len(),
        joined(base, leaf) != base,
        in_tree(base, joined(base, leaf)),
        relative(joined(base, leaf)) <==> base.len() == 0 || base[0] != '/',
{
    reveal_strlit("/");
    assert(joined(base, leaf) =~= stem(base) + leaf);
}

/// Different relative leaves give different paths below the same base.
pub proof fn lemma_joined_injective(base: Seq<char>, a: Seq<char>, b: Seq<char>)
    requires
        relative(a),
        relative(b),
        joined(base, a) == joined(base, b),
    ensures
        a == b,
{
    lemma_joined_relative(base, a);
    lemma_joined_relative(base, b);
    let front = stem(base);
    assert((front + a).skip(front.len() as int) =~= a);
    assert((front + b).skip(front.len() as int) =~= b);
}

/// Joining in two steps is joining the joined leaves.
pub proof fn lemma_joined_twice(base: Seq<char>, a: Seq<char>, b: Seq<char>)
    requires
        relative(a),
        relative(b),
    ensures
        relative(joined(a, b)),
        joined(joined(base, a), b) == joined(base, joined(a, b)),
{
    reveal_strlit("/");
    lemma_joined_relative(base, a);
    lemma_joined_relative(a, b);
    let inner = joined(a, b);
    assert(inner[0] == a[0]);
    lemma_joined_relative(base, inner);
    let whole = joined(base, a);
    lemma_joined_relative(whole, b);
    assert(whole.last() == a.last());
    assert(stem(whole) =~= stem(base) + stem(a));
    assert(stem(base) + stem(a) + b =~= stem(base) + (stem(a) + b));
}

/// The leaves of the files of an app, below its directory.
pub open spec fn app_leaves() -> Seq<Seq<char>> {
    seq![
        START_SCRIPT@,
        STOP_SCRIPT@,
        RECORD_FILE@,
        LOCK_FILE@,
        LOG_DIR@,
        joined(LOG_DIR@, STDOUT_LOG@),
        joined(LOG_DIR@, STDERR_LOG@),
    ]
}

/// The paths of an app in `dir`, in the order of [`app_leaves`]: start
/// script, stop script, record, lock, log directory and the two logs.
pub open spec fn app_paths(dir: Seq<char>) -> Seq<Seq<char>> {
    seq![
        start_script_of(dir),
        stop_script_of(dir),
        record_file_of(dir),
        lock_file_of(dir),
        log_dir_of(dir),
        stdout_log_of(dir),
        stderr_log_of(dir),
    ]
}

/// The leaves of an app are relative and no two of them are the same.
pub proof fn lemma_app_leaves_distinct()
    ensures
        forall|i: int| 0 <= i < 7 ==> relative(#[trigger] app_leaves()[i]),
        forall|i: int, j: int|
            0 <= i < j < 7 ==> #[trigger] app_leaves()[i] != #[trigger] app_leaves()[j],
{
    reveal_strlit("/");
    reveal_strlit("start.sh");
    reveal_strlit("stop.sh");
    reveal_strlit("app.json");
    reveal_strlit("app.lock");
    reveal_strlit("logs");
    reveal_strlit("stdout.log");
    reveal_strlit("stderr.log");
    let leaves = app_leaves();
    let out = joined(LOG_DIR@, STDOUT_LOG@);
    let err = joined(LOG_DIR@, STDERR_LOG@);
    lemma_joined_relative(LOG_DIR@, STDOUT_LOG@);
    lemma_joined_relative(LOG_DIR@, STDERR_LOG@);
    assert(out =~= LOG_DIR@ + "/"@ + STDOUT_LOG@);
    assert(err =~= LOG_DIR@ + "/"@ + STDERR_LOG@);
    assert(out.len() == 15 && err.len() == 15);
    assert(out[0] == 'l' && err[0] == 'l');
    assert(out[8] == 'o' && err[8] == 'e');
    assert(START_SCRIPT@.len() == 8 && START_SCRIPT@[0] == 's');
    assert(STOP_SCRIPT@.len() == 7 && STOP_SCRIPT@[0] == 's');
    assert(RECORD_FILE@.len() == 8 && RECORD_FILE@[0] == 'a' && RECORD_FILE@[4] == 'j');
    assert(LOCK_FILE@.len() == 8 && LOCK_FILE@[0] == 'a' && LOCK_FILE@[4] == 'l');
    assert(LOG_DIR@.len() == 4 && LOG_DIR@[0] == 'l');
    assert forall|i: int| 0 <= i < 7 implies relative(#[trigger] leaves[i]) by {}
    assert forall|i: int, j: int| 0 <= i < j < 7 implies #[trigger] leaves[i]
        != #[trigger] leaves[j] by {}
}

/// The paths of an app lie in the tree of its directory, differ from the
/// directory and differ from each other.
pub proof fn lemma_app_paths_distinct(dir: Seq<char>)
    ensures
        forall|i: int| 0 <= i < 7 ==> in_tree(dir, #[trigger] app_paths(dir)[i]),
        forall|i: int| 0 <= i < 7 ==> #[trigger] app_paths(dir)[i] != dir,
        forall|i: int, j: int|
            0 <= i < j < 7 ==> #[trigger] app_paths(dir)[i] != #[trigger] app_paths(dir)[j],
{
    lemma_app_leaves_distinct();
    let leaves = app_leaves();
    let paths = app_paths(dir);
    reveal_strlit("logs");
    reveal_strlit("stdout.log");
    reveal_strlit("stderr.log");
    lemma_joined_twice(dir, LOG_DIR@, STDOUT_LOG@);
    lemma_joined_twice(dir, LOG_DIR@, STDERR_LOG@);
    assert forall|i: int| 0 <= i < 7 implies #[trigger] paths[i] == joined(dir, leaves[i]) by {}
    assert forall|i: int| 0 <= i < 7 implies in_tree(dir, #[trigger] paths[i]) && paths[i]
        != dir by {
        lemma_joined_relative(dir, leaves[i]);
    }
    assert forall|i: int, j: int| 0 <= i < j < 7 implies #[trigger] paths[i]
        != #[trigger] paths[j] by {
        if paths[i] == paths[j] {
            lemma_joined_injective(dir, leaves[i], leaves[j]);
        }
    }
}

} // verus!
