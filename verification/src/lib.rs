//! Runtime provisioning and process-orchestration core for a chart-generation
//! desktop application.
//!
//! The library holds the decision logic of the host: resolving where a
//! scripting runtime, its package manager, installed dependencies and an
//! optional headless-browser runtime live on the user's machine; planning the
//! installation of each of those; validating generation requests; and turning
//! the raw output stream of a spawned generation job into progress and log
//! events and a final structured result.
//!
//! Everything here is pure: filesystem facts, process output lines and exit
//! statuses come in as plain values, and actions to perform (directories to
//! create, commands to run, events to emit) go out as plain values. The thin
//! unverified shell around the library performs the actual I/O.

pub mod args;
pub mod errors;
pub mod events;
pub mod install;
pub mod job;
pub mod palette;
pub mod parse;
pub mod paths;
pub mod runtime_install;
pub mod status;
pub mod text;
pub mod validate;
