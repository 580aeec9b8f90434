//! The runtime installer: a fixed, platform-specific plan of actions that
//! places a pinned runtime version and its package manager into the
//! application-private directory, replacing whatever was there. The caller
//! performs the actions in order and reports each outcome back; any failure
//! aborts the remaining steps with a step-labelled error.

use vstd::prelude::*;
use crate::errors::HostError;
use crate::text::matches_at;

verus! {

/// The platforms the installer knows how to provision.
#[derive(Clone, Copy, Debug, PartialEq, Eq, Structural)]
pub enum Platform {
    MacArm64,
    MacX64,
    LinuxX64,
    WindowsX64,
}

/// Whether the platform follows the Windows conventions: zip archive, flat
/// install layout, no executable bits.
pub open spec fn is_windows(p: Platform) -> bool {
    p is WindowsX64
}

/// The pinned runtime version this installer provisions.
pub open spec fn runtime_version() -> Seq<char> {
    "24.12.0"@
}

/// The platform tag used in the release archive's name.
pub open spec fn archive_tag(p: Platform) -> Seq<char> {
    match p {
        Platform::MacArm64 => "darwin-arm64"@,
        Platform::MacX64 => "darwin-x64"@,
        Platform::LinuxX64 => "linux-x64"@,
        Platform::WindowsX64 => "win-x64"@,
    }
}

/// The archive format: zip on Windows, compressed tarball elsewhere.
pub open spec fn archive_ext(p: Platform) -> Seq<char> {
    if is_windows(p) {
        "zip"@
    } else {
        "tar.gz"@
    }
}

/// The platform's directory separator.
pub open spec fn dir_sep(p: Platform) -> Seq<char> {
    if is_windows(p) {
        "\\"@
    } else {
        "/"@
    }
}

/// The application-private runtime install directory.
pub open spec fn spec_install_dir(app_data: Seq<char>, p: Platform) -> Seq<char> {
    app_data + dir_sep(p) + "node"@
}

/// The release archive's file name for the pinned version.
pub open spec fn spec_archive_name(p: Platform) -> Seq<char> {
    "node-v"@ + runtime_version() + "-"@ + archive_tag(p) + "."@ + archive_ext(p)
}

/// Where the archive is downloaded to.
pub open spec fn spec_archive_path(tmp: Seq<char>, p: Platform) -> Seq<char> {
    tmp + dir_sep(p) + spec_archive_name(p)
}

/// The temporary extraction root.
pub open spec fn spec_extract_root(tmp: Seq<char>, p: Platform) -> Seq<char> {
    tmp + dir_sep(p) + "node-extract"@
}

/// The single top-level directory the archive extracts to.
pub open spec fn spec_top_dir(tmp: Seq<char>, p: Platform) -> Seq<char> {
    spec_extract_root(tmp, p) + dir_sep(p) + "node-v"@ + runtime_version() + "-"@ + archive_tag(p)
}

/// The release archive's download URL for the pinned version.
pub open spec fn spec_download_url(p: Platform) -> Seq<char> {
    "https://nodejs.org/dist/v"@ + runtime_version() + "/"@ + spec_archive_name(p)
}

/// The installed runtime binary, in the platform's layout.
pub open spec fn spec_runtime_binary(app_data: Seq<char>, p: Platform) -> Seq<char> {
    spec_install_dir(app_data, p) + (if is_windows(p) {
        "\\node.exe"@
    } else {
        "/bin/node"@
    })
}

/// The synthesized package-manager wrapper script.
pub open spec fn spec_npm_wrapper(app_data: Seq<char>, p: Platform) -> Seq<char> {
    spec_install_dir(app_data, p) + (if is_windows(p) {
        "\\npm.cmd"@
    } else {
        "/npm"@
    })
}

/// The synthesized wrapper for the package manager's companion runner.
pub open spec fn spec_npx_wrapper(app_data: Seq<char>, p: Platform) -> Seq<char> {
    spec_install_dir(app_data, p) + (if is_windows(p) {
        "\\npx.cmd"@
    } else {
        "/npx"@
    })
}

/// The wrapper's body: it re-invokes the installed runtime binary against the
/// package manager's entry script, forwarding all arguments.
pub open spec fn spec_npm_wrapper_contents(p: Platform) -> Seq<char> {
    if is_windows(p) {
        "@echo off\r\n\"%~dp0node.exe\" \"%~dp0node_modules\\npm\\bin\\npm-cli.js\" %*\r\n"@
    } else {
        "#!/bin/sh\nDIR=\"$(dirname \"$0\")\"\nexec \"$DIR/bin/node\" \"$DIR/lib/node_modules/npm/bin/npm-cli.js\" \"$@\"\n"@
    }
}

/// The companion runner's wrapper body.
pub open spec fn spec_npx_wrapper_contents(p: Platform) -> Seq<char> {
    if is_windows(p) {
        "@echo off\r\n\"%~dp0node.exe\" \"%~dp0node_modules\\npm\\bin\\npx-cli.js\" %*\r\n"@
    } else {
        "#!/bin/sh\nDIR=\"$(dirname \"$0\")\"\nexec \"$DIR/bin/node\" \"$DIR/lib/node_modules/npm/bin/npx-cli.js\" \"$@\"\n"@
    }
}

/// One step of the runtime installation, performed by the caller.
#[derive(Clone, Debug)]
pub enum InstallAction {
    /// Delete the directory and everything under it, if it exists.
    RemoveDir(String),
    /// Create the directory and its parents.
    CreateDir(String),
    /// Fetch the archive at `url` into the file `dest`.
    Download { url: String, dest: String },
    /// Unpack `archive` into `dest`; `zip` says which format.
    Extract { archive: String, dest: String, zip: bool },
    /// Copy the runtime binary and the package manager's internal files from
    /// the extracted tree into the install directory.
    CopyRuntime { from: String, to: String },
    /// Write `contents` to the file at `path`.
    WriteWrapper { path: String, contents: String },
    /// Give the file its executable permission.
    MarkExecutable(String),
    /// Invoke the tool with its version flag and check that it answers.
    VerifyVersion { tool: String },
}

/// `s` begins with `prefix`.
pub open spec fn starts_with(s: Seq<char>, prefix: Seq<char>) -> bool {
    matches_at(s, prefix, 0)
}

/// The action writes at or under `dir`.
pub open spec fn writes_into(a: InstallAction, dir: Seq<char>) -> bool {
    match a {
        InstallAction::RemoveDir(_) => false,
        InstallAction::CreateDir(d) => starts_with(d@, dir),
        InstallAction::Download { url: _, dest } => starts_with(dest@, dir),
        InstallAction::Extract { archive: _, dest, zip: _ } => starts_with(dest@, dir),
        InstallAction::CopyRuntime { from: _, to } => starts_with(to@, dir),
        InstallAction::WriteWrapper { path, contents: _ } => starts_with(path@, dir),
        InstallAction::MarkExecutable(q) => starts_with(q@, dir),
        InstallAction::VerifyVersion { tool: _ } => false,
    }
}

/// The exact shape of a runtime installation plan: clear the old install,
/// recreate it, download and unpack the pinned archive, copy the runtime in,
/// synthesize the two wrappers (marking them executable where the OS needs
/// it), and verify both tools.
pub open spec fn plan_shape(
    plan: Seq<InstallAction>,
    app_data: Seq<char>,
    tmp: Seq<char>,
    p: Platform,
) -> bool {
    &&& plan.len() == (if is_windows(p) {
        9int
    } else {
        11int
    })
    &&& plan[0] matches InstallAction::RemoveDir(d) && d@ == spec_install_dir(app_data, p)
    &&& plan[1] matches InstallAction::CreateDir(d) && d@ == spec_install_dir(app_data, p)
    &&& plan[2] matches InstallAction::Download { url, dest } && url@ == spec_download_url(p)
        && dest@ == spec_archive_path(tmp, p)
    &&& plan[3] matches InstallAction::Extract { archive, dest, zip } && archive@
        == spec_archive_path(tmp, p) && dest@ == spec_extract_root(tmp, p) && zip == is_windows(p)
    &&& plan[4] matches InstallAction::CopyRuntime { from, to } && from@ == spec_top_dir(tmp, p)
        && to@ == spec_install_dir(app_data, p)
    &&& plan[5] matches InstallAction::WriteWrapper { path, contents } && path@
        == spec_npm_wrapper(app_data, p) && contents@ == spec_npm_wrapper_contents(p)
    &&& plan[6] matches InstallAction::WriteWrapper { path, contents } && path@
        == spec_npx_wrapper(app_data, p) && contents@ == spec_npx_wrapper_contents(p)
    &&& !is_windows(p) ==> (plan[7] matches InstallAction::MarkExecutable(q) && q@
        == spec_npm_wrapper(app_data, p))
    &&& !is_windows(p) ==> (plan[8] matches InstallAction::MarkExecutable(q) && q@
        == spec_npx_wrapper(app_data, p))
    &&& ({
        let v = if is_windows(p) {
            7int
        } else {
            9int
        };
        &&& plan[v] matches InstallAction::VerifyVersion { tool } && tool@ == spec_runtime_binary(
            app_data,
            p,
        )
        &&& plan[v + 1] matches InstallAction::VerifyVersion { tool } && tool@ == spec_npm_wrapper(
            app_data,
            p,
        )
    })
}

fn archive_tag_str(p: Platform) -> (r: String)
    ensures
        r@ == archive_tag(p),
{
    match p {
        Platform::MacArm64 => String::from_str("darwin-arm64"),
        Platform::MacX64 => String::from_str("darwin-x64"),
        Platform::LinuxX64 => String::from_str("linux-x64"),
        Platform::WindowsX64 => String::from_str("win-x64"),
    }
}

fn is_windows_exec(p: Platform) -> (b: bool)
    ensures
        b == is_windows(p),
{
    match p {
        Platform::WindowsX64 => true,
        _ => false,
    }
}

fn dir_sep_str(p: Platform) -> (r: &'static str)
    ensures
        r@ == dir_sep(p),
{
    if is_windows_exec(p) {
        "\\"
    } else {
        "/"
    }
}

fn install_dir_path(app_data: &str, p: Platform) -> (r: String)
    ensures
        r@ == spec_install_dir(app_data@, p),
{
    let mut r = String::from_str(app_data);
    r.append(dir_sep_str(p));
    r.append("node");
    r
}

fn archive_name(p: Platform) -> (r: String)
    ensures
        r@ == spec_archive_name(p),
{
    let mut r = String::from_str("node-v");
    r.append("24.12.0");
    r.append("-");
    r.append(archive_tag_str(p).as_str());
    r.append(".");
    if is_windows_exec(p) {
        r.append("zip");
    } else {
        r.append("tar.gz");
    }
    r
}

fn npm_wrapper_path(app_data: &str, p: Platform) -> (r: String)
    ensures
        r@ == spec_npm_wrapper(app_data@, p),
{
    let mut r = install_dir_path(app_data, p);
    if is_windows_exec(p) {
        r.append("\\npm.cmd");
    } else {
        r.append("/npm");
    }
    r
}

fn npx_wrapper_path(app_data: &str, p: Platform) -> (r: String)
    ensures
        r@ == spec_npx_wrapper(app_data@, p),
{
    let mut r = install_dir_path(app_data, p);
    if is_windows_exec(p) {
        r.append("\\npx.cmd");
    } else {
        r.append("/npx");
    }
    r
}

/// Build the installation plan for a platform, the application-private data
/// directory, and a temporary working directory. The first action clears the
/// previous install, so re-running after a failure is safe and no stale file
/// survives a re-install.
pub fn runtime_install_plan(platform: Platform, app_data: &str, tmp: &str) -> (r: Vec<
    InstallAction,
>)
    ensures
        plan_shape(r@, app_data@, tmp@, platform),
{
    let windows = is_windows_exec(platform);
    let sep = dir_sep_str(platform);
    let install_dir = install_dir_path(app_data, platform);
    let mut archive_path = String::from_str(tmp);
    archive_path.append(sep);
    archive_path.append(archive_name(platform).as_str());
    let mut extract_root = String::from_str(tmp);
    extract_root.append(sep);
    extract_root.append("node-extract");
    let mut top_dir = extract_root.clone();
    top_dir.append(sep);
    top_dir.append("node-v");
    top_dir.append("24.12.0");
    top_dir.append("-");
    top_dir.append(archive_tag_str(platform).as_str());
    let mut url = String::from_str("https://nodejs.org/dist/v");
    url.append("24.12.0");
    url.append("/");
    url.append(archive_name(platform).as_str());
    let mut runtime_binary = install_dir.clone();
    if windows {
        runtime_binary.append("\\node.exe");
    } else {
        runtime_binary.append("/bin/node");
    }
    let npm_wrapper = npm_wrapper_path(app_data, platform);
    let npx_wrapper = npx_wrapper_path(app_data, platform);
    let npm_contents = if windows {
        String::from_str(
            "@echo off\r\n\"%~dp0node.exe\" \"%~dp0node_modules\\npm\\bin\\npm-cli.js\" %*\r\n",
        )
    } else {
        String::from_str(
            "#!/bin/sh\nDIR=\"$(dirname \"$0\")\"\nexec \"$DIR/bin/node\" \"$DIR/lib/node_modules/npm/bin/npm-cli.js\" \"$@\"\n",
        )
    };
    let npx_contents = if windows {
        String::from_str(
            "@echo off\r\n\"%~dp0node.exe\" \"%~dp0node_modules\\npm\\bin\\npx-cli.js\" %*\r\n",
        )
    } else {
        String::from_str(
            "#!/bin/sh\nDIR=\"$(dirname \"$0\")\"\nexec \"$DIR/bin/node\" \"$DIR/lib/node_modules/npm/bin/npx-cli.js\" \"$@\"\n",
        )
    };
    let mut plan: Vec<InstallAction> = Vec::new();
    plan.push(InstallAction::RemoveDir(install_dir.clone()));
    plan.push(InstallAction::CreateDir(install_dir.clone()));
    plan.push(InstallAction::Download { url, dest: archive_path.clone() });
    plan.push(
        InstallAction::Extract { archive: archive_path, dest: extract_root, zip: windows },
    );
    plan.push(InstallAction::CopyRuntime { from: top_dir, to: install_dir });
    plan.push(
        InstallAction::WriteWrapper { path: npm_wrapper.clone(), contents: npm_contents },
    );
    plan.push(
        InstallAction::WriteWrapper { path: npx_wrapper.clone(), contents: npx_contents },
    );
    if !windows {
        plan.push(InstallAction::MarkExecutable(npm_wrapper.clone()));
        plan.push(InstallAction::MarkExecutable(npx_wrapper.clone()));
    }
    plan.push(InstallAction::VerifyVersion { tool: runtime_binary });
    plan.push(InstallAction::VerifyVersion { tool: npm_wrapper });
    plan
}

/// Law: installing over a pre-existing private install clears it before
/// anything is written. In every plan, the first action — and the only
/// removal — is the removal of the private install directory, so each action
/// that writes at or under that directory stands strictly after it.
pub proof fn lemma_install_clears_before_writing(
    plan: Seq<InstallAction>,
    app_data: Seq<char>,
    tmp: Seq<char>,
    p: Platform,
)
    requires
        plan_shape(plan, app_data, tmp, p),
    ensures
        plan.len() > 0,
        plan[0] matches InstallAction::RemoveDir(d) && d@ == spec_install_dir(app_data, p),
        forall|i: int| 1 <= i < plan.len() ==> !(plan[i] is RemoveDir),
        forall|i: int|
            0 <= i < plan.len() && writes_into(plan[i], spec_install_dir(app_data, p)) ==> 0 < i,
{
    assert forall|i: int| 1 <= i < plan.len() implies !(plan[i] is RemoveDir) by {
        if is_windows(p) {
            assert(plan.len() == 9);
        } else {
            assert(plan.len() == 11);
        }
    }
}

/// The human-readable name of an action, for step-labelled failures.
pub open spec fn spec_step_label(a: InstallAction) -> Seq<char> {
    match a {
        InstallAction::RemoveDir(_) => "clearing the previous runtime install"@,
        InstallAction::CreateDir(_) => "creating the install directory"@,
        InstallAction::Download { .. } => "downloading the runtime archive"@,
        InstallAction::Extract { .. } => "unpacking the runtime archive"@,
        InstallAction::CopyRuntime { .. } => "copying the runtime files"@,
        InstallAction::WriteWrapper { .. } => "writing a package-manager wrapper"@,
        InstallAction::MarkExecutable(_) => "marking a wrapper executable"@,
        InstallAction::VerifyVersion { .. } => "verifying the installed tools"@,
    }
}

/// The message of a step-labelled failure.
pub open spec fn spec_step_failure_message(a: InstallAction) -> Seq<char> {
    "Runtime installation failed while "@ + spec_step_label(a)
}

/// Drive the plan: after performing action `i` the caller reports whether it
/// succeeded. Success proceeds to the next action, or finishes after the
/// last; failure aborts the remaining steps with an error labelled by the
/// step that failed — download, extraction/materialisation, or verification.
pub fn on_step_result(plan: &Vec<InstallAction>, i: usize, ok: bool) -> (r: Result<
    Option<usize>,
    HostError,
>)
    requires
        i < plan@.len(),
    ensures
        ok && i + 1 < plan@.len() ==> (r matches Ok(s) && s == Some((i + 1) as usize)),
        ok && i + 1 == plan@.len() ==> (r matches Ok(s) && s is None),
        !ok ==> (r matches Err(e) && e.spec_detail() == spec_step_failure_message(plan@[i as int])
            && (match plan@[i as int] {
            InstallAction::Download { .. } => e is Download,
            InstallAction::VerifyVersion { .. } => e is Verification,
            _ => e is Extraction,
        })),
{
    if ok {
        let n = plan.len();
        if i < n - 1 {
            Ok(Some(i + 1))
        } else {
            Ok(None)
        }
    } else {
        let mut d = String::from_str("Runtime installation failed while ");
        match &plan[i] {
            InstallAction::RemoveDir(_) => {
                d.append("clearing the previous runtime install");
                Err(HostError::Extraction(d))
            },
            InstallAction::CreateDir(_) => {
                d.append("creating the install directory");
                Err(HostError::Extraction(d))
            },
            InstallAction::Download { .. } => {
                d.append("downloading the runtime archive");
                Err(HostError::Download(d))
            },
            InstallAction::Extract { .. } => {
                d.append("unpacking the runtime archive");
                Err(HostError::Extraction(d))
            },
            InstallAction::CopyRuntime { .. } => {
                d.append("copying the runtime files");
                Err(HostError::Extraction(d))
            },
            InstallAction::WriteWrapper { .. } => {
                d.append("writing a package-manager wrapper");
                Err(HostError::Extraction(d))
            },
            InstallAction::MarkExecutable(_) => {
                d.append("marking a wrapper executable");
                Err(HostError::Extraction(d))
            },
            InstallAction::VerifyVersion { .. } => {
                d.append("verifying the installed tools");
                Err(HostError::Verification(d))
            },
        }
    }
}

} // verus!
