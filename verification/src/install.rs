//! The dependency installer and the browser-runtime installer: what to run,
//! what each output line does to the progress narrative, which diagnostics
//! count, and what the terminal event and result are.

use vstd::prelude::*;
use crate::errors::HostError;
use crate::events::InstallProgress;
use crate::job::non_decreasing;
use crate::text::{all_space, contains_seq, join_lines, join_with, str_contains, str_is_blank};

verus! {

/// The package manager's arguments for materialising the manifest:
/// production-only install.
pub fn dep_install_args() -> (r: Vec<String>)
    ensures
        r@.len() == 2,
        r@[0]@ == "install"@,
        r@[1]@ == "--production"@,
{
    let mut r: Vec<String> = Vec::new();
    r.push(String::from_str("install"));
    r.push(String::from_str("--production"));
    r
}

/// The message of the precondition failure when the manifest is absent.
pub open spec fn manifest_missing_message(manifest_path: Seq<char>) -> Seq<char> {
    "package.json not found at "@ + manifest_path
}

/// An output line counts towards progress when it looks like the package
/// manager reporting materialised packages.
pub open spec fn has_bump_marker(l: Seq<char>) -> bool {
    contains_seq(l, "added"@) || contains_seq(l, "packages"@)
}

/// One heuristic progress step: up by ten, saturating at ninety so the bar
/// never completes before the process has exited.
pub open spec fn bumped_progress(p: u8) -> u8 {
    if p <= 80 {
        (p + 10) as u8
    } else if p <= 90 {
        90
    } else {
        p
    }
}

proof fn lemma_push_non_decreasing_u8(s: Seq<u8>, v: u8)
    requires
        non_decreasing(s),
        s.len() > 0 ==> s.last() <= v,
    ensures
        non_decreasing(s.push(v)),
{
    let p = s.push(v);
    assert forall|i: int, j: int| 0 <= i <= j < p.len() implies p[i] <= p[j] by {
        if j < s.len() {
            assert(s[i] <= s[j]);
        } else if i < s.len() {
            assert(s[i] <= s[s.len() - 1]);
        }
    }
}

/// The live state of one dependency installation between its start and the
/// package manager's exit. `emitted` records every progress value the stage
/// has produced, in order.
pub struct DepInstall {
    pub progress: u8,
    pub error_lines: Vec<String>,
    pub emitted: Ghost<Seq<u8>>,
}

impl DepInstall {
    /// Progress is a percentage, and the emitted record never steps down and
    /// ends at the current value.
    pub open spec fn wf(self) -> bool {
        &&& self.progress <= 100
        &&& non_decreasing(self.emitted@)
        &&& self.emitted@.len() > 0 ==> self.emitted@.last() == self.progress
    }

    /// Open a dependency installation. When the manifest is absent this is a
    /// hard precondition failure: no state exists, so no later step — and no
    /// filesystem mutation — can happen. Otherwise the three preparatory
    /// events (prepare, copy, install) come back in order, and the caller
    /// performs the matching actions between them.
    pub fn start(manifest_path: &str, manifest_exists: bool) -> (r: Result<
        (DepInstall, Vec<InstallProgress>),
        HostError,
    >)
        ensures
            r is Ok <==> manifest_exists,
            !manifest_exists ==> (r matches Err(e) && e matches HostError::Precondition(d) && d@
                == manifest_missing_message(manifest_path@)),
            r matches Ok(t) ==> {
                &&& t.0.wf()
                &&& t.0.progress == 20
                &&& t.0.error_lines@.len() == 0
                &&& t.0.emitted@ == Seq::empty().push(5u8).push(10u8).push(20u8)
                &&& t.1@.len() == 3
                &&& t.1@[0].stage@ == "Preparing"@ && t.1@[0].message@
                    == "Setting up dependency directory..."@ && t.1@[0].progress == 5
                    && t.1@[0].complete == false && t.1@[0].error is None
                &&& t.1@[1].stage@ == "Copying"@ && t.1@[1].message@ == "Copying package files..."@
                    && t.1@[1].progress == 10 && t.1@[1].complete == false && t.1@[1].error is None
                &&& t.1@[2].stage@ == "Installing"@ && t.1@[2].message@
                    == "Installing dependencies (this may take a few minutes)..."@
                    && t.1@[2].progress == 20 && t.1@[2].complete == false && t.1@[2].error is None
                &&& forall|i: int| 0 <= i < t.1@.len() ==> t.1@[i].wf()
            },
    {
        if !manifest_exists {
            let mut d = String::from_str("package.json not found at ");
            d.append(manifest_path);
            return Err(HostError::Precondition(d));
        }
        let state = DepInstall {
            progress: 20,
            error_lines: Vec::new(),
            emitted: Ghost(Seq::empty().push(5u8).push(10u8).push(20u8)),
        };
        let mut evs: Vec<InstallProgress> = Vec::new();
        evs.push(
            InstallProgress {
                stage: String::from_str("Preparing"),
                message: String::from_str("Setting up dependency directory..."),
                progress: 5,
                complete: false,
                error: None,
            },
        );
        evs.push(
            InstallProgress {
                stage: String::from_str("Copying"),
                message: String::from_str("Copying package files..."),
                progress: 10,
                complete: false,
                error: None,
            },
        );
        evs.push(
            InstallProgress {
                stage: String::from_str("Installing"),
                message: String::from_str("Installing dependencies (this may take a few minutes)..."),
                progress: 20,
                complete: false,
                error: None,
            },
        );
        Ok((state, evs))
    }

    /// Consume one output line of the package manager: bump the saturating
    /// progress counter when the line reports materialised packages, and hand
    /// back the event that surfaces the line.
    pub fn on_output_line(&mut self, line: String) -> (ev: InstallProgress)
        requires
            old(self).wf(),
        ensures
            final(self).wf(),
            final(self).progress == (if has_bump_marker(line@) {
                bumped_progress(old(self).progress)
            } else {
                old(self).progress
            }),
            final(self).emitted@ == old(self).emitted@.push(final(self).progress),
            final(self).error_lines == old(self).error_lines,
            ev.stage@ == "Installing"@,
            ev.message == line,
            ev.progress == final(self).progress,
            ev.complete == false,
            ev.error is None,
            ev.wf(),
    {
        if str_contains(line.as_str(), "added") || str_contains(line.as_str(), "packages") {
            let p = self.progress;
            self.progress = if p <= 80 {
                p + 10
            } else if p <= 90 {
                90
            } else {
                p
            };
        }
        proof {
            lemma_push_non_decreasing_u8(self.emitted@, self.progress);
        }
        self.emitted = Ghost(self.emitted@.push(self.progress));
        InstallProgress {
            stage: String::from_str("Installing"),
            message: line,
            progress: self.progress,
            complete: false,
            error: None,
        }
    }

    /// A diagnostic line is kept for failure reporting unless it is a warning
    /// or empty.
    pub fn on_error_line(&mut self, line: String)
        requires
            old(self).wf(),
        ensures
            final(self).wf(),
            final(self).progress == old(self).progress,
            final(self).emitted@ == old(self).emitted@,
            (!contains_seq(line@, "WARN"@) && line@.len() > 0) ==> final(self).error_lines@ == old(
                self,
            ).error_lines@.push(line),
            !(!contains_seq(line@, "WARN"@) && line@.len() > 0) ==> final(self).error_lines == old(
                self,
            ).error_lines,
    {
        if !str_contains(line.as_str(), "WARN") && line.as_str().unicode_len() > 0 {
            self.error_lines.push(line);
        }
    }

    /// Close the installation once the package manager has exited: completion
    /// at one hundred on success, else the terminal error event carrying the
    /// collected diagnostics (or a fixed message when there were none).
    pub fn finish(&mut self, exit_success: bool) -> (r: (Result<bool, HostError>, InstallProgress))
        requires
            old(self).wf(),
        ensures
            final(self).wf(),
            final(self).progress == 100,
            final(self).emitted@ == old(self).emitted@.push(100u8),
            final(self).error_lines == old(self).error_lines,
            r.1.wf(),
            exit_success ==> {
                &&& r.0 matches Ok(b) && b == true
                &&& r.1.stage@ == "Complete"@
                &&& r.1.message@
                    == "Dependencies installed. Install the internal browser to enable PNG export."@
                &&& r.1.progress == 100 && r.1.complete == true && r.1.error is None
            },
            !exit_success ==> {
                let detail = if old(self).error_lines@.len() == 0 {
                    "npm install failed"@
                } else {
                    join_with(old(self).error_lines.deep_view(), "\n"@)
                };
                &&& r.0 matches Err(e) && e matches HostError::ProcessExit(d) && d@ == detail
                &&& r.1.stage@ == "Error"@ && r.1.message@ == "Installation failed"@
                    && r.1.progress == 100 && r.1.complete == true
                &&& r.1.error matches Some(m) && m@ == detail
            },
    {
        proof {
            lemma_push_non_decreasing_u8(self.emitted@, 100);
        }
        self.progress = 100;
        self.emitted = Ghost(self.emitted@.push(100u8));
        if exit_success {
            (
                Ok(true),
                InstallProgress {
                    stage: String::from_str("Complete"),
                    message: String::from_str(
                        "Dependencies installed. Install the internal browser to enable PNG export.",
                    ),
                    progress: 100,
                    complete: true,
                    error: None,
                },
            )
        } else {
            let detail = if self.error_lines.len() == 0 {
                String::from_str("npm install failed")
            } else {
                join_lines(&self.error_lines, "\n")
            };
            let ev = InstallProgress {
                stage: String::from_str("Error"),
                message: String::from_str("Installation failed"),
                progress: 100,
                complete: true,
                error: Some(detail.clone()),
            };
            (Err(HostError::ProcessExit(detail)), ev)
        }
    }
}

/// The message of the precondition failure when the browser runtime is asked
/// for before the dependencies exist.
pub open spec fn browser_precondition_message() -> Seq<char> {
    "Install dependencies first before installing the PNG browser runtime."@
}

/// The browser-runtime installer's target directory under the dependency
/// root; the invoked tool reads it from its own environment variable.
pub fn browser_target_dir(deps_dir: &str) -> (r: String)
    ensures
        r@ == deps_dir@ + "/playwright-browsers"@,
{
    let mut r = String::from_str(deps_dir);
    r.append("/playwright-browsers");
    r
}

/// The package manager's arguments for installing the headless browser; on
/// Linux the tool is also asked to install the OS-level shared libraries.
pub fn browser_install_args(linux: bool) -> (r: Vec<String>)
    ensures
        r@.len() == (if linux {
            5int
        } else {
            4int
        }),
        r@[0]@ == "exec"@,
        r@[1]@ == "playwright"@,
        r@[2]@ == "install"@,
        r@[3]@ == "chromium"@,
        linux ==> r@[4]@ == "--with-deps"@,
{
    let mut r: Vec<String> = Vec::new();
    r.push(String::from_str("exec"));
    r.push(String::from_str("playwright"));
    r.push(String::from_str("install"));
    r.push(String::from_str("chromium"));
    if linux {
        r.push(String::from_str("--with-deps"));
    }
    r
}

/// The live state of one browser-runtime installation: only the diagnostics
/// collected for failure reporting.
pub struct BrowserInstall {
    pub error_lines: Vec<String>,
}

impl BrowserInstall {
    /// Open a browser-runtime installation. Dependencies must already be
    /// installed — a hard precondition failure otherwise. When the browser
    /// root already resolves the whole operation is an immediate success with
    /// its terminal event and no state; otherwise the opening announcement
    /// comes back with the state to stream into.
    pub fn start(deps_installed: bool, already_installed: bool) -> (r: Result<
        (Option<BrowserInstall>, Vec<InstallProgress>),
        HostError,
    >)
        ensures
            r is Ok <==> deps_installed,
            !deps_installed ==> (r matches Err(e) && e matches HostError::Precondition(d) && d@
                == browser_precondition_message()),
            deps_installed && already_installed ==> (r matches Ok(t) && {
                &&& t.0 is None
                &&& t.1@.len() == 1
                &&& t.1@[0].stage@ == "Complete"@
                &&& t.1@[0].message@ == "PNG browser runtime installed successfully."@
                &&& t.1@[0].progress == 100 && t.1@[0].complete == true && t.1@[0].error is None
            }),
            deps_installed && !already_installed ==> (r matches Ok(t) && {
                &&& t.0 matches Some(s) && s.error_lines@.len() == 0
                &&& t.1@.len() == 1
                &&& t.1@[0].stage@ == "Installing"@
                &&& t.1@[0].message@ == "Installing Chromium runtime for PNG export..."@
                &&& t.1@[0].progress == 92 && t.1@[0].complete == false && t.1@[0].error is None
            }),
            r matches Ok(t) ==> forall|i: int| 0 <= i < t.1@.len() ==> t.1@[i].wf(),
    {
        if !deps_installed {
            return Err(
                HostError::Precondition(
                    String::from_str(
                        "Install dependencies first before installing the PNG browser runtime.",
                    ),
                ),
            );
        }
        if already_installed {
            let mut evs: Vec<InstallProgress> = Vec::new();
            evs.push(
                InstallProgress {
                    stage: String::from_str("Complete"),
                    message: String::from_str("PNG browser runtime installed successfully."),
                    progress: 100,
                    complete: true,
                    error: None,
                },
            );
            return Ok((None, evs));
        }
        let mut evs: Vec<InstallProgress> = Vec::new();
        evs.push(
            InstallProgress {
                stage: String::from_str("Installing"),
                message: String::from_str("Installing Chromium runtime for PNG export..."),
                progress: 92,
                complete: false,
                error: None,
            },
        );
        Ok((Some(BrowserInstall { error_lines: Vec::new() }), evs))
    }

    /// Surface one output line of the tool, unless it is blank. The stage
    /// stays at its fixed mid-install value.
    pub fn on_output_line(&self, line: String) -> (ev: Option<InstallProgress>)
        ensures
            all_space(line@) ==> ev is None,
            !all_space(line@) ==> (ev matches Some(e) && e.stage@ == "Installing"@ && e.message
                == line && e.progress == 95 && e.complete == false && e.error is None && e.wf()),
    {
        if str_is_blank(line.as_str()) {
            None
        } else {
            Some(
                InstallProgress {
                    stage: String::from_str("Installing"),
                    message: line,
                    progress: 95,
                    complete: false,
                    error: None,
                },
            )
        }
    }

    /// A diagnostic line is kept for failure reporting unless it is blank.
    pub fn on_error_line(&mut self, line: String)
        ensures
            !all_space(line@) ==> final(self).error_lines@ == old(self).error_lines@.push(line),
            all_space(line@) ==> final(self).error_lines == old(self).error_lines,
    {
        if !str_is_blank(line.as_str()) {
            self.error_lines.push(line);
        }
    }

    /// Close the installation once the tool has exited: the terminal success
    /// event, or the terminal error event carrying the collected diagnostics
    /// (or a fixed message when there were none).
    pub fn finish(&self, exit_success: bool) -> (r: (Result<bool, HostError>, InstallProgress))
        ensures
            r.1.wf(),
            exit_success ==> {
                &&& r.0 matches Ok(b) && b == true
                &&& r.1.stage@ == "Complete"@
                &&& r.1.message@ == "PNG browser runtime installed successfully."@
                &&& r.1.progress == 100 && r.1.complete == true && r.1.error is None
            },
            !exit_success ==> {
                let detail = if self.error_lines@.len() == 0 {
                    "Failed to install Chromium runtime for PNG export"@
                } else {
                    join_with(self.error_lines.deep_view(), "\n"@)
                };
                &&& r.0 matches Err(e) && e matches HostError::ProcessExit(d) && d@ == detail
                &&& r.1.stage@ == "Error"@ && r.1.message@ == "Installation failed"@
                    && r.1.progress == 100 && r.1.complete == true
                &&& r.1.error matches Some(m) && m@ == detail
            },
    {
        if exit_success {
            (
                Ok(true),
                InstallProgress {
                    stage: String::from_str("Complete"),
                    message: String::from_str("PNG browser runtime installed successfully."),
                    progress: 100,
                    complete: true,
                    error: None,
                },
            )
        } else {
            let detail = if self.error_lines.len() == 0 {
                String::from_str("Failed to install Chromium runtime for PNG export")
            } else {
                join_lines(&self.error_lines, "\n")
            };
            let ev = InstallProgress {
                stage: String::from_str("Error"),
                message: String::from_str("Installation failed"),
                progress: 100,
                complete: true,
                error: Some(detail.clone()),
            };
            (Err(HostError::ProcessExit(detail)), ev)
        }
    }
}

} // verus!
