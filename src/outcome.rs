//! What launches and stops report.
use vstd::prelude::*;
use vstd::string::*;

verus! {

/// A successful outcome of a launch or a stop.
#[derive(Clone, Copy, Debug, PartialEq, Eq, Structural)]
pub enum Status {
    /// A new server process was started.
    Launched,
    /// A launch found the server running and left it alone.
    AlreadyRunning,
    /// A stop killed the running server.
    Stopped,
    /// A stop found nothing running.
    NotRunning,
}

/// Why a launch or a stop failed.
#[derive(Clone, Debug)]
pub enum LaunchError {
    /// The binary was not found anywhere, or the configuration could not be saved.
    PathResolutionFailed(String),
    /// The user closed the file picker without choosing.
    SelectionCancelled,
    /// The saved configuration is unreadable, is no JSON object, or lacks a
    /// string `spxPath` member.
    ConfigInvalid(String),
    /// The operating system refused to start the binary.
    SpawnFailed { path: String, reason: String },
    /// The operating system refused to kill the running server.
    KillFailed(String),
}

impl Status {
    /// The text shown to the user for this outcome.
    pub fn message(&self) -> (r: &'static str)
        ensures
            r@ == status_text(*self),
    {
        match self {
            Status::Launched => "Server is running",
            Status::AlreadyRunning => "Server is already running",
            Status::Stopped => "Server stopped",
            Status::NotRunning => "Server was not running",
        }
    }
}

pub open spec fn status_text(s: Status) -> Seq<char> {
    match s {
        Status::Launched => "Server is running"@,
        Status::AlreadyRunning => "Server is already running"@,
        Status::Stopped => "Server stopped"@,
        Status::NotRunning => "Server was not running"@,
    }
}

/// The text shown to the user for a failure.
pub open spec fn error_text(e: LaunchError) -> Seq<char> {
    match e {
        LaunchError::PathResolutionFailed(m) => m@,
        LaunchError::SelectionCancelled => "User cancelled file selection"@,
        LaunchError::ConfigInvalid(m) => m@,
        LaunchError::SpawnFailed { path, reason } => "Failed to launch server at "@ + path@ + ": "@
            + reason@,
        LaunchError::KillFailed(m) => m@,
    }
}

impl LaunchError {
    /// The text shown to the user for this failure.
    pub fn message(&self) -> (r: String)
        ensures
            r@ == error_text(*self),
    {
        match self {
            LaunchError::PathResolutionFailed(m) => m.clone(),
            LaunchError::SelectionCancelled => String::from_str("User cancelled file selection"),
            LaunchError::ConfigInvalid(m) => m.clone(),
            LaunchError::SpawnFailed { path, reason } => {
                let mut r = String::from_str("Failed to launch server at ");
                r.append(path.as_str());
                r.append(": ");
                r.append(reason.as_str());
                r
            },
            LaunchError::KillFailed(m) => m.clone(),
        }
    }
}

} // verus!
