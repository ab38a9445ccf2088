//! Decision core of a daemonless, single-host process supervisor.
//!
//! Every command of the supervisor is a short-lived run that inspects one
//! app directory, decides, acts and exits. This crate holds the deciding
//! half: the persisted record, the directory layout, the texts that are
//! written or shown, and the step-by-step protocol of each command. The
//! acting half (files, locks, processes) belongs to the caller, who does
//! what a [`session::Session`] names and reports back.
//!
//! - [`app`]: the record of an app.
//! - [`layout`]: the paths of an app's files.
//! - [`liveness`]: what a probe of the lock says about a running app.
//! - [`launch`]: the scripts of a new app and the wrapper of a launch.
//! - [`protocol`], [`session`]: actions, answers and the stepping of a
//!   command; one module for each command beside them.
//! - [`world`], [`laws`]: a model of files and locks, and what whole
//!   commands achieve in it.
//! - [`cli`], [`clock`], [`error`], [`text`]: the command line, the time,
//!   failures and text routines.

pub mod app;
pub mod cli;
pub mod clock;
pub mod create;
pub mod delete;
pub mod error;
pub mod kill;
pub mod launch;
pub mod laws;
pub mod layout;
pub mod listing;
pub mod liveness;
pub mod logs;
pub mod protocol;
pub mod run;
pub mod session;
pub mod status;
pub mod stop;
pub mod text;
pub mod world;
