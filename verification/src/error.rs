//! What can go wrong, by kind, with the one-line message for the user.

use vstd::prelude::*;

verus! {

/// The kinds of failure that a command can end in.
#[derive(Clone, Copy, PartialEq, Eq, Structural, Debug)]
pub enum ErrorKind {
    /// The app directory, or a file that the command needs in it, is absent.
    NotFound,
    /// An app of that name is already there.
    AlreadyExists,
    /// The lock is held: the app is running.
    AlreadyRunning,
    /// The lock is free: the app is not running.
    NotRunning,
    /// The record holds no launch, so there is no process id to signal.
    NoRecordedPid,
    /// The record cannot be read, cannot be parsed, or cannot be counted on.
    CorruptState,
    /// The file system refused an operation.
    IOError,
    /// A child process could not be started.
    ChildLaunchFailed,
    /// The kill signal could not be delivered.
    SignalDeliveryFailed,
    /// The stop script ran and reported failure.
    ScriptExitNonZero,
}

/// A failure: its kind and the message shown to the user.
#[derive(Debug)]
pub struct Error {
    pub kind: ErrorKind,
    pub message: String,
}

/// Mathematical content of an [`Error`].
pub struct ErrorView {
    pub kind: ErrorKind,
    pub message: Seq<char>,
}

impl View for Error {
    type V = ErrorView;

    open spec fn view(&self) -> ErrorView {
        ErrorView { kind: self.kind, message: self.message@ }
    }
}

impl Error {
    /// A failure of the given kind with the given message.
    pub fn new(kind: ErrorKind, message: String) -> (e: Error)
        ensures
            e@ == (ErrorView { kind, message: message@ }),
    {
        Error { kind, message }
    }

    /// The kind of the failure.
    pub fn kind(&self) -> (k: ErrorKind)
        ensures
            k == self@.kind,
    {
        self.kind
    }

    /// The message, as a text of its own.
    pub fn message(&self) -> (m: String)
        ensures
            m@ == self@.message,
    {
        self.message.clone()
    }
}

} // verus!
