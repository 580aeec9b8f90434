//! The status reporter: a pure, never-failing aggregation of what the
//! resolvers and version probes found, plus the build-metadata projection.

use vstd::prelude::*;
use crate::events::{BuildInfo, DependencyStatus};

verus! {

/// The dependency root counts as populated when the module directory exists
/// and holds the marker dependency the generation job is known to need.
pub fn dependencies_present(node_modules_exists: bool, marker_exists: bool) -> (b: bool)
    ensures
        b == (node_modules_exists && marker_exists),
{
    node_modules_exists && marker_exists
}

/// The name of the marker dependency checked for inside the module
/// directory.
pub fn dependency_marker() -> (r: String)
    ensures
        r@ == "exceljs"@,
{
    String::from_str("exceljs")
}

/// Assemble the status snapshot from the probe results. Every field degrades
/// independently: a missing tool or path leaves its own fields unavailable
/// and nothing else, and the aggregation itself never fails.
pub fn build_dependency_status(
    node_version: Option<String>,
    npm_version: Option<String>,
    dependencies_installed: bool,
    dependencies_path: Option<String>,
    scripts_path: Option<String>,
    browser_installed: bool,
) -> (s: DependencyStatus)
    ensures
        s.node_available == (node_version is Some),
        s.node_version == node_version,
        s.npm_available == (npm_version is Some),
        s.npm_version == npm_version,
        s.dependencies_installed == dependencies_installed,
        s.dependencies_path == dependencies_path,
        s.scripts_path == scripts_path,
        s.browser_installed == browser_installed,
{
    let node_available = node_version.is_some();
    let npm_available = npm_version.is_some();
    DependencyStatus {
        node_available,
        node_version,
        npm_available,
        npm_version,
        dependencies_installed,
        dependencies_path,
        scripts_path,
        browser_installed,
    }
}

/// Project the build metadata for display; the short commit is the first
/// seven characters of the full one.
pub fn make_build_info(datetime: String, commit: String, branch: String, is_release: bool) -> (b:
    BuildInfo)
    ensures
        b.datetime == datetime,
        b.commit == commit,
        b.branch == branch,
        b.is_release == is_release,
        commit@.len() >= 7 ==> b.commit_short@ == commit@.take(7),
        commit@.len() < 7 ==> b.commit_short@ == commit@,
{
    let n = commit.as_str().unicode_len();
    let commit_short = if n >= 7 {
        String::from_str(commit.as_str().substring_char(0, 7))
    } else {
        commit.clone()
    };
    BuildInfo { datetime, commit, commit_short, branch, is_release }
}

} // verus!
