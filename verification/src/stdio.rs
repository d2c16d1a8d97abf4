//! Where the output of the backend goes.
//!
//! A development build shows it on the supervisor's own console. A packaged
//! build has no console: it appends both streams to one log file below the
//! data directory, and where that file cannot be had it discards them rather
//! than keep the backend from starting.

use vstd::prelude::*;
use crate::command::{CommandSpec, CommandView, Sink};
use crate::paths::{Location, LocationView};

verus! {

/// Directory, below the data directory, that holds the log file.
pub const LOG_DIR: &'static str = "logs";

/// Name of the log file.
pub const LOG_FILE: &'static str = "backend.log";

/// The directory to create and the file to open for appending before the
/// backend starts.
#[derive(Debug, PartialEq, Eq)]
pub struct LogTarget {
    pub dir: Location,
    pub file: Location,
}

/// Where the log directory lies for a given data directory.
pub open spec fn log_dir_view(data_dir: Seq<char>) -> LocationView {
    LocationView { root: data_dir, steps: seq![LOG_DIR@] }
}

/// Where the log file lies for a given data directory.
pub open spec fn log_file_view(data_dir: Seq<char>) -> LocationView {
    LocationView { root: data_dir, steps: seq![LOG_DIR@, LOG_FILE@] }
}

/// What has to be prepared on disk before the streams can be set up: nothing
/// in a development build, the log file in a packaged one.
pub fn log_target(debug_build: bool, data_dir: &String) -> (target: Option<LogTarget>)
    ensures
        debug_build ==> target is None,
        !debug_build ==> target is Some && target->0.dir@ == log_dir_view(data_dir@)
            && target->0.file@ == log_file_view(data_dir@),
{
    if debug_build {
        return None;
    }
    let mut dir_steps: Vec<String> = Vec::new();
    dir_steps.push(LOG_DIR.to_owned());
    assert(dir_steps.deep_view() =~= seq![LOG_DIR@]);
    let mut file_steps: Vec<String> = Vec::new();
    file_steps.push(LOG_DIR.to_owned());
    file_steps.push(LOG_FILE.to_owned());
    assert(file_steps.deep_view() =~= seq![LOG_DIR@, LOG_FILE@]);
    Some(
        LogTarget {
            dir: Location { root: data_dir.clone(), steps: dir_steps },
            file: Location { root: data_dir.clone(), steps: file_steps },
        },
    )
}

/// How preparing the log file went.
#[derive(Clone, Copy, Debug, PartialEq, Eq, Structural)]
pub enum LogAttempt {
    /// The log directory could not be created.
    DirUnavailable,
    /// The directory is there, but the file could not be opened.
    FileUnavailable,
    /// The file is open for appending. `duplicated` tells whether a second
    /// handle onto the same open file could be had for the error stream.
    Opened { duplicated: bool },
}

/// The two sinks of a child process.
#[derive(Clone, Copy, Debug, PartialEq, Eq, Structural)]
pub struct StdioConfig {
    pub stdout: Sink,
    pub stderr: Sink,
}

/// The stream policy.
///
/// A development build inherits both streams, whatever happened to the log.
/// A packaged build sends both to the log file when it is open and could be
/// duplicated; with the file open but no second handle, the error stream is
/// discarded; with no file at all, both are.
pub open spec fn stdio_policy(debug_build: bool, log: Option<LogAttempt>) -> StdioConfig {
    if debug_build {
        StdioConfig { stdout: Sink::Inherit, stderr: Sink::Inherit }
    } else {
        match log {
            Some(LogAttempt::Opened { duplicated: true }) => StdioConfig {
                stdout: Sink::LogFile,
                stderr: Sink::LogFile,
            },
            Some(LogAttempt::Opened { duplicated: false }) => StdioConfig {
                stdout: Sink::LogFile,
                stderr: Sink::Null,
            },
            _ => StdioConfig { stdout: Sink::Null, stderr: Sink::Null },
        }
    }
}

/// Sets the two streams of `command` as the policy says and leaves the rest
/// of it alone. `log` is the outcome of preparing the log file, `None` where
/// it was not tried.
pub fn configure_backend_stdio(
    command: &mut CommandSpec,
    debug_build: bool,
    log: Option<LogAttempt>,
)
    ensures
        final(command)@ == (CommandView {
            stdout: stdio_policy(debug_build, log).stdout,
            stderr: stdio_policy(debug_build, log).stderr,
            ..old(command)@
        }),
{
    if debug_build {
        command.stdout = Sink::Inherit;
        command.stderr = Sink::Inherit;
        return ;
    }
    match log {
        Some(LogAttempt::Opened { duplicated }) => {
            command.stdout = Sink::LogFile;
            if duplicated {
                command.stderr = Sink::LogFile;
            } else {
                command.stderr = Sink::Null;
            }
        },
        _ => {
            command.stdout = Sink::Null;
            command.stderr = Sink::Null;
        },
    }
}

} // verus!
