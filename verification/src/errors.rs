//! The error taxonomy of the host. Every fallible operation returns one of
//! these immediately; no step retries on its own.

use vstd::prelude::*;

verus! {

/// What went wrong, with a human-readable detail naming the resource and,
/// where relevant, every location that was checked.
#[derive(Clone, Debug)]
pub enum HostError {
    /// Every candidate location was checked and none passed.
    PathResolution(String),
    /// Fetching the runtime archive failed.
    Download(String),
    /// Unpacking the runtime archive failed.
    Extraction(String),
    /// A freshly installed tool failed its version check.
    Verification(String),
    /// A child process could not be started.
    ProcessSpawn(String),
    /// A child process exited with a failure status; carries its diagnostics.
    ProcessExit(String),
    /// The request's input file is missing or of the wrong kind.
    Validation(String),
    /// An operation was asked for before its prerequisites were in place.
    Precondition(String),
}

impl HostError {
    /// The detail text, whatever the kind.
    pub open spec fn spec_detail(self) -> Seq<char> {
        match self {
            HostError::PathResolution(d) => d@,
            HostError::Download(d) => d@,
            HostError::Extraction(d) => d@,
            HostError::Verification(d) => d@,
            HostError::ProcessSpawn(d) => d@,
            HostError::ProcessExit(d) => d@,
            HostError::Validation(d) => d@,
            HostError::Precondition(d) => d@,
        }
    }

    /// The failure reported when a child process could not be started: the
    /// tool's name and the reason the system gave.
    pub fn spawn_failure(tool: &str, reason: &str) -> (r: HostError)
        ensures
            r matches HostError::ProcessSpawn(d) && d@ == "Failed to start "@ + tool@ + ": "@
                + reason@,
    {
        let mut d = String::from_str("Failed to start ");
        d.append(tool);
        d.append(": ");
        d.append(reason);
        HostError::ProcessSpawn(d)
    }

    /// Executable counterpart of [`HostError::spec_detail`].
    pub fn detail(&self) -> (d: &String)
        ensures
            d@ == self.spec_detail(),
    {
        match self {
            HostError::PathResolution(d) => d,
            HostError::Download(d) => d,
            HostError::Extraction(d) => d,
            HostError::Verification(d) => d,
            HostError::ProcessSpawn(d) => d,
            HostError::ProcessExit(d) => d,
            HostError::Validation(d) => d,
            HostError::Precondition(d) => d,
        }
    }
}

} // verus!
