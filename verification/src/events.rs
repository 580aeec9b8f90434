//! The value objects of the host: requests, results, status snapshots and the
//! transient events that the installers and the job orchestrator emit.

use vstd::prelude::*;

verus! {

/// Severity of a [`LogEntry`].
#[derive(Clone, Copy, Debug, PartialEq, Eq, Structural)]
pub enum LogLevel {
    Debug,
    Info,
    Warn,
    Error,
}

/// Where a [`LogEntry`] came from: the host itself, the spawned job, or the
/// surrounding system.
#[derive(Clone, Copy, Debug, PartialEq, Eq, Structural)]
pub enum LogSource {
    Host,
    Job,
    System,
}

impl LogLevel {
    /// The wire name of the severity, as the event sink expects it.
    pub open spec fn spec_name(self) -> Seq<char> {
        match self {
            LogLevel::Debug => "debug"@,
            LogLevel::Info => "info"@,
            LogLevel::Warn => "warn"@,
            LogLevel::Error => "error"@,
        }
    }

    /// Executable counterpart of [`LogLevel::spec_name`].
    pub fn name(self) -> (r: String)
        ensures
            r@ == self.spec_name(),
    {
        match self {
            LogLevel::Debug => String::from_str("debug"),
            LogLevel::Info => String::from_str("info"),
            LogLevel::Warn => String::from_str("warn"),
            LogLevel::Error => String::from_str("error"),
        }
    }
}

impl LogSource {
    /// The wire name of the origin, as the event sink expects it.
    pub open spec fn spec_name(self) -> Seq<char> {
        match self {
            LogSource::Host => "rust"@,
            LogSource::Job => "node"@,
            LogSource::System => "system"@,
        }
    }

    /// Executable counterpart of [`LogSource::spec_name`].
    pub fn name(self) -> (r: String)
        ensures
            r@ == self.spec_name(),
    {
        match self {
            LogSource::Host => String::from_str("rust"),
            LogSource::Job => String::from_str("node"),
            LogSource::System => String::from_str("system"),
        }
    }
}

/// One entry of the display log: a pure projection for the UI, never
/// persisted.
#[derive(Clone, Debug)]
pub struct LogEntry {
    pub level: String,
    pub source: String,
    pub message: String,
    pub timestamp: String,
}

impl LogEntry {
    /// The level field holds one of the four severity names.
    pub open spec fn wf(self) -> bool {
        &&& (self.level@ == LogLevel::Debug.spec_name() || self.level@ == LogLevel::Info.spec_name()
            || self.level@ == LogLevel::Warn.spec_name() || self.level@
            == LogLevel::Error.spec_name())
        &&& (self.source@ == LogSource::Host.spec_name() || self.source@
            == LogSource::Job.spec_name() || self.source@ == LogSource::System.spec_name())
    }

    /// Build an entry. The timestamp is whatever clock reading the caller
    /// supplies; the library never reads a clock itself.
    pub fn new(level: LogLevel, source: LogSource, message: String, timestamp: String) -> (r:
        LogEntry)
        ensures
            r.level@ == level.spec_name(),
            r.source@ == source.spec_name(),
            r.message == message,
            r.timestamp == timestamp,
            r.wf(),
    {
        LogEntry { level: level.name(), source: source.name(), message, timestamp }
    }
}

/// A named progress milestone of a generation job, between 0 and 100.
#[derive(Clone, Debug)]
pub struct ProgressUpdate {
    pub step: String,
    pub progress: u8,
}

impl ProgressUpdate {
    /// The progress value is a percentage.
    pub open spec fn wf(self) -> bool {
        self.progress <= 100
    }
}

/// A progress report of an installer stage; `complete` marks the terminal
/// event, whose `error` field decides success or failure of the stage.
#[derive(Clone, Debug)]
pub struct InstallProgress {
    pub stage: String,
    pub message: String,
    pub progress: u8,
    pub complete: bool,
    pub error: Option<String>,
}

impl InstallProgress {
    /// A percentage, and an error only on the terminal event.
    pub open spec fn wf(self) -> bool {
        &&& self.progress <= 100
        &&& !self.complete ==> self.error is None
    }
}

/// What the caller asks of a generation job. Only the input path is
/// validated; palette and view-mode are passed through uninterpreted.
#[derive(Clone, Debug)]
pub struct GenerateOptions {
    pub input_path: String,
    pub output_path: Option<String>,
    pub palette: String,
    pub export_png: bool,
    pub png_drop_shadow: bool,
    pub view_mode: String,
}

/// The outcome of a generation job. The paths are inferred from the job's
/// output, never re-checked on disk; `message` is the complete standard-output
/// transcript in original order.
#[derive(Clone, Debug)]
pub struct GenerateResult {
    pub success: bool,
    pub html_path: Option<String>,
    pub png_path: Option<String>,
    pub message: String,
}

/// A snapshot of what is installed, recomputed on demand and never cached.
/// Every field degrades to unavailable independently.
#[derive(Clone, Debug)]
pub struct DependencyStatus {
    pub node_available: bool,
    pub node_version: Option<String>,
    pub npm_available: bool,
    pub npm_version: Option<String>,
    pub dependencies_installed: bool,
    pub dependencies_path: Option<String>,
    pub scripts_path: Option<String>,
    pub browser_installed: bool,
}

/// Build metadata shown in the UI's about box.
#[derive(Clone, Debug)]
pub struct BuildInfo {
    pub datetime: String,
    pub commit: String,
    pub commit_short: String,
    pub branch: String,
    pub is_release: bool,
}

/// One entry of the static colour-palette catalogue.
#[derive(Clone, Debug)]
pub struct PaletteInfo {
    pub id: String,
    pub name: String,
    pub description: String,
    pub colors: Vec<String>,
    pub accent_border: Option<String>,
    pub accent_color: Option<String>,
}

} // verus!
