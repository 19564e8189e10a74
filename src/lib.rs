//! Health monitoring of a local container daemon.
//!
//! The library holds the decisions of the monitor, each with its contract:
//! the status snapshot and the transitions that each outcome of a daemon
//! call makes (`status`), the connection supervisor's state and retry
//! policy (`supervisor`), the comparison of version strings (`version`),
//! update verdicts (`updates`, `documents`), reading the desktop
//! application's version from probe output (`desktop`), and host facts
//! (`host`). The calls to the daemon, to remote sources and to the
//! operating system are made by the caller.

pub mod desktop;
pub mod documents;
pub mod host;
pub mod status;
pub mod supervisor;
pub mod text;
pub mod updates;
pub mod version;
