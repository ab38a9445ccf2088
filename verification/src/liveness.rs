//! Is the app running? The answer is the state of the advisory lock on
//! `app.lock`, never the process id in the record: a process id can be
//! stale or reused, the lock is held exactly as long as the process that
//! took it lives.
//!
//! The caller probes the lock without blocking and reports what it saw as a
//! [`LockProbe`]; this module says what the probe means.

use vstd::prelude::*;
use crate::error::{Error, ErrorKind, ErrorView};
use crate::layout::{lock_file, lock_file_of};
use crate::text::{concat4, debug_form, quoted_path};

verus! {

/// What a non-blocking attempt to take the lock exclusively showed.
#[derive(Debug)]
pub enum LockProbe {
    /// There is no lock file: nothing was ever launched.
    Absent,
    /// The lock was taken, and given back at once: nobody holds it.
    Free,
    /// The lock is contended: another process holds it.
    Held,
    /// The lock file is there and could not be opened; the text says why.
    Unreadable(String),
}

/// Mathematical content of a [`LockProbe`].
pub enum LockProbeView {
    Absent,
    Free,
    Held,
    Unreadable(Seq<char>),
}

impl View for LockProbe {
    type V = LockProbeView;

    open spec fn view(&self) -> LockProbeView {
        match self {
            LockProbe::Absent => LockProbeView::Absent,
            LockProbe::Free => LockProbeView::Free,
            LockProbe::Held => LockProbeView::Held,
            LockProbe::Unreadable(why) => LockProbeView::Unreadable(why@),
        }
    }
}

/// The message for a lock file that could not be opened.
pub open spec fn lock_unreadable_text(app_dir: Seq<char>, why: Seq<char>) -> Seq<char> {
    "failed to open lockfile "@ + debug_form(lock_file_of(app_dir)) + ": "@ + why
}

/// What a probe says about the app in `app_dir`: running exactly if the
/// lock is held; a lock file that cannot be opened is a failure, not a
/// "no".
pub open spec fn lock_verdict(app_dir: Seq<char>, probe: LockProbeView) -> Result<
    bool,
    ErrorView,
> {
    match probe {
        LockProbeView::Unreadable(why) => Err(
            ErrorView { kind: ErrorKind::IOError, message: lock_unreadable_text(app_dir, why) },
        ),
        LockProbeView::Held => Ok(true),
        LockProbeView::Absent => Ok(false),
        LockProbeView::Free => Ok(false),
    }
}

/// The view of a verdict.
pub open spec fn verdict_view(verdict: Result<bool, Error>) -> Result<bool, ErrorView> {
    match verdict {
        Ok(running) => Ok(running),
        Err(e) => Err(e@),
    }
}

/// Whether the lock of the app in `app_dir` is held by another process,
/// going by what the probe showed.
pub fn is_lock_held(app_dir: &str, probe: &LockProbe) -> (verdict: Result<bool, Error>)
    ensures
        verdict_view(verdict) == lock_verdict(app_dir@, probe@),
{
    match probe {
        LockProbe::Unreadable(why) => {
            let path = lock_file(app_dir);
            let shown = quoted_path(path.as_str());
            Err(
                Error::new(
                    ErrorKind::IOError,
                    concat4("failed to open lockfile ", shown.as_str(), ": ", why.as_str()),
                ),
            )
        },
        LockProbe::Held => Ok(true),
        LockProbe::Absent => Ok(false),
        LockProbe::Free => Ok(false),
    }
}

/// Whether the app is running, for a probe that could look at the lock.
pub fn check_running(probe: &LockProbe) -> (running: bool)
    requires
        !(probe@ is Unreadable),
    ensures
        running == (probe@ is Held),
{
    match probe {
        LockProbe::Held => true,
        _ => false,
    }
}

} // verus!
