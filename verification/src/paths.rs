//! The path resolution chain: each resource is found by walking an ordered
//! list of candidate locations and taking the first one whose filesystem
//! check passed. The checks themselves (does the directory exist, does it
//! hold the marker file) are performed by the caller and handed in as plain
//! facts, so resolution is a pure function of that snapshot.

use vstd::prelude::*;
use crate::errors::HostError;
use crate::text::{lemma_lex_total, lemma_lex_trans, lex_le, str_lex_le};

verus! {

/// A candidate location together with the outcome of its existence/content
/// check at snapshot time.
#[derive(Clone, Debug)]
pub struct Candidate {
    pub path: String,
    pub found: bool,
}

/// The path of the first candidate whose check passed, if any. First match
/// wins, deterministically: resolution is a function of the snapshot alone.
pub open spec fn spec_resolve(cands: Seq<Candidate>) -> Option<Seq<char>>
    decreases cands.len(),
{
    if cands.len() == 0 {
        None
    } else if cands[0].found {
        Some(cands[0].path@)
    } else {
        spec_resolve(cands.drop_first())
    }
}

/// Resolution never invents a path: a resolved path is the path of a found
/// candidate, and one before which no candidate was found.
pub open spec fn is_first_found(cands: Seq<Candidate>, i: int) -> bool {
    &&& 0 <= i < cands.len()
    &&& cands[i].found
    &&& forall|k: int| 0 <= k < i ==> !cands[k].found
}

proof fn lemma_resolve_skip(cands: Seq<Candidate>, i: int)
    requires
        0 <= i < cands.len(),
        !cands[i].found,
    ensures
        spec_resolve(cands.skip(i)) == spec_resolve(cands.skip(i + 1)),
{
    assert(cands.skip(i)[0] == cands[i]);
    assert(cands.skip(i).drop_first() =~= cands.skip(i + 1));
}

proof fn lemma_resolve_found(cands: Seq<Candidate>, i: int)
    requires
        0 <= i < cands.len(),
        cands[i].found,
    ensures
        spec_resolve(cands.skip(i)) == Some(cands[i].path@),
{
    assert(cands.skip(i)[0] == cands[i]);
}

/// Walk the candidates in order and return the first found path.
pub fn resolve_first(cands: &Vec<Candidate>) -> (r: Option<String>)
    ensures
        r matches Some(p) ==> Some(p@) == spec_resolve(cands@),
        r is Some <==> spec_resolve(cands@) is Some,
{
    let n = cands.len();
    let mut i: usize = 0;
    proof {
        assert(cands@.skip(0) =~= cands@);
    }
    while i < n
        invariant
            i <= n,
            n == cands@.len(),
            spec_resolve(cands@) == spec_resolve(cands@.skip(i as int)),
        decreases n - i,
    {
        if cands[i].found {
            proof {
                lemma_resolve_found(cands@, i as int);
            }
            return Some(cands[i].path.clone());
        }
        proof {
            lemma_resolve_skip(cands@, i as int);
        }
        i += 1;
    }
    proof {
        assert(cands@.skip(n as int) =~= Seq::<Candidate>::empty());
    }
    None
}

/// Two resolutions of the same snapshot give the same result: resolution is
/// deterministic. Together with the contract of [`resolve_first`], two calls
/// made while the filesystem facts are unchanged return identical paths.
pub proof fn lemma_resolution_deterministic(a: Seq<Candidate>, b: Seq<Candidate>)
    requires
        a == b,
    ensures
        spec_resolve(a) == spec_resolve(b),
{
}

/// The candidate paths, for listing in an error message.
pub open spec fn paths_of(cands: Seq<Candidate>) -> Seq<Seq<char>> {
    cands.map_values(|c: Candidate| c.path@)
}

/// Each path on a line of its own, indented under a heading.
pub open spec fn bullet_list(paths: Seq<Seq<char>>) -> Seq<char>
    decreases paths.len(),
{
    if paths.len() == 0 {
        Seq::empty()
    } else {
        "\n  - "@ + paths[0] + bullet_list(paths.drop_first())
    }
}

proof fn lemma_bullet_push(paths: Seq<Seq<char>>, x: Seq<char>)
    ensures
        bullet_list(paths.push(x)) == bullet_list(paths) + "\n  - "@ + x,
    decreases paths.len(),
{
    let p = paths.push(x);
    if paths.len() == 0 {
        assert(p[0] == x);
        assert(p.drop_first() =~= Seq::<Seq<char>>::empty());
        assert("\n  - "@ + x + bullet_list(p.drop_first()) =~= Seq::<char>::empty() + "\n  - "@
            + x);
    } else {
        lemma_bullet_push(paths.drop_first(), x);
        assert(p.drop_first() =~= paths.drop_first().push(x));
        assert(p[0] == paths[0]);
        assert(paths[0] + (bullet_list(paths.drop_first()) + "\n  - "@ + x) =~= (paths[0]
            + bullet_list(paths.drop_first())) + "\n  - "@ + x);
        assert("\n  - "@ + (paths[0] + (bullet_list(paths.drop_first()) + "\n  - "@ + x)) =~= (
        "\n  - "@ + (paths[0] + bullet_list(paths.drop_first()))) + "\n  - "@ + x);
    }
}

/// List every checked location after a heading and before a trailer.
fn bullet_message(heading: &str, cands: &Vec<Candidate>, trailer: &str) -> (r: String)
    ensures
        r@ == heading@ + bullet_list(paths_of(cands@)) + trailer@,
{
    let ghost all = paths_of(cands@);
    let mut r = String::from_str(heading);
    let mut i: usize = 0;
    while i < cands.len()
        invariant
            i <= cands@.len(),
            all == paths_of(cands@),
            all.len() == cands@.len(),
            forall|k: int| 0 <= k < all.len() ==> all[k] == cands@[k].path@,
            r@ == heading@ + bullet_list(all.take(i as int)),
        decreases cands@.len() - i,
    {
        r.append("\n  - ");
        r.append(cands[i].path.as_str());
        proof {
            lemma_bullet_push(all.take(i as int), all[i as int]);
            assert(all.take(i + 1) =~= all.take(i as int).push(all[i as int]));
            assert(heading@ + (bullet_list(all.take(i as int)) + "\n  - "@ + all[i as int])
                =~= (heading@ + bullet_list(all.take(i as int))) + "\n  - "@ + all[i as int]);
        }
        i += 1;
    }
    proof {
        assert(all.take(cands@.len() as int) =~= all);
    }
    r.append(trailer);
    r
}

/// The failure message of the scripts-directory resolver: every checked
/// location is named.
pub open spec fn scripts_missing_message(cands: Seq<Candidate>) -> Seq<char> {
    "Build script not found. Checked locations:"@ + bullet_list(paths_of(cands))
        + "\nPlease ensure the app is properly installed."@
}

/// Resolve the scripts directory: the first candidate whose check (presence
/// of the entry-point script) passed; else a failure naming every checked
/// location.
pub fn resolve_scripts_dir(cands: &Vec<Candidate>) -> (r: Result<String, HostError>)
    ensures
        r is Ok <==> spec_resolve(cands@) is Some,
        r matches Ok(p) ==> Some(p@) == spec_resolve(cands@),
        r matches Err(e) ==> (e matches HostError::PathResolution(d) && d@
            == scripts_missing_message(cands@)),
{
    match resolve_first(cands) {
        Some(p) => Ok(p),
        None => Err(
            HostError::PathResolution(
                bullet_message(
                    "Build script not found. Checked locations:",
                    cands,
                    "\nPlease ensure the app is properly installed.",
                ),
            ),
        ),
    }
}

/// The failure message of the runtime resolver.
pub open spec fn runtime_missing_message() -> Seq<char> {
    "Node.js not found. Please install Node.js and ensure it's in your PATH, or set the NODE_PATH environment variable."@
}

/// Resolve the runtime executable: the first candidate that exists on disk
/// wins — existence alone is the success criterion, not executability.
pub fn resolve_runtime(cands: &Vec<Candidate>) -> (r: Result<String, HostError>)
    ensures
        r is Ok <==> spec_resolve(cands@) is Some,
        r matches Ok(p) ==> Some(p@) == spec_resolve(cands@),
        r matches Err(e) ==> (e matches HostError::PathResolution(d) && d@
            == runtime_missing_message()),
{
    match resolve_first(cands) {
        Some(p) => Ok(p),
        None => Err(
            HostError::PathResolution(
                String::from_str(
                    "Node.js not found. Please install Node.js and ensure it's in your PATH, or set the NODE_PATH environment variable.",
                ),
            ),
        ),
    }
}

/// The failure message of the package-manager resolver.
pub open spec fn package_manager_missing_message() -> Seq<char> {
    "npm not found. Please install Node.js (which includes npm) from https://nodejs.org"@
}

/// Resolve the package-manager executable by the same ordered-candidate walk.
pub fn resolve_package_manager(cands: &Vec<Candidate>) -> (r: Result<String, HostError>)
    ensures
        r is Ok <==> spec_resolve(cands@) is Some,
        r matches Ok(p) ==> Some(p@) == spec_resolve(cands@),
        r matches Err(e) ==> (e matches HostError::PathResolution(d) && d@
            == package_manager_missing_message()),
{
    match resolve_first(cands) {
        Some(p) => Ok(p),
        None => Err(
            HostError::PathResolution(
                String::from_str(
                    "npm not found. Please install Node.js (which includes npm) from https://nodejs.org",
                ),
            ),
        ),
    }
}

/// The failure message of the dependency-root resolver, naming the corrective
/// UI action.
pub open spec fn dependencies_missing_message() -> Seq<char> {
    "Dependencies not installed. Please use the Setup button to install required dependencies."@
}

/// Resolve the installed-dependencies root: the application-private directory
/// when it holds the dependency marker, else the development-mode bundled
/// directory with the same marker, else a corrective failure.
pub fn resolve_dependency_root(private_root: &Candidate, bundled_root: &Candidate) -> (r: Result<
    String,
    HostError,
>)
    ensures
        r is Ok <==> (private_root.found || bundled_root.found),
        private_root.found ==> (r matches Ok(p) && p@ == private_root.path@),
        !private_root.found && bundled_root.found ==> (r matches Ok(p) && p@
            == bundled_root.path@),
        r matches Err(e) ==> (e matches HostError::PathResolution(d) && d@
            == dependencies_missing_message()),
{
    if private_root.found {
        Ok(private_root.path.clone())
    } else if bundled_root.found {
        Ok(bundled_root.path.clone())
    } else {
        Err(
            HostError::PathResolution(
                String::from_str(
                    "Dependencies not installed. Please use the Setup button to install required dependencies.",
                ),
            ),
        )
    }
}

/// The well-known install locations of the runtime executable, in the order
/// they are tried after the private install and the explicit override.
pub fn runtime_well_known_paths(home: &str, windows: bool) -> (r: Vec<String>)
    ensures
        windows ==> r.deep_view() == seq![
            "node.exe"@,
            "C:\\Program Files\\nodejs\\node.exe"@,
            "C:\\Program Files (x86)\\nodejs\\node.exe"@,
        ],
        !windows ==> r.deep_view() == seq![
            "/usr/local/bin/node"@,
            "/opt/homebrew/bin/node"@,
            "/usr/bin/node"@,
            "/opt/local/bin/node"@,
            home@ + "/.nvm/current/bin/node"@,
            home@ + "/.volta/bin/node"@,
        ],
{
    let mut r: Vec<String> = Vec::new();
    if windows {
        r.push(String::from_str("node.exe"));
        r.push(String::from_str("C:\\Program Files\\nodejs\\node.exe"));
        r.push(String::from_str("C:\\Program Files (x86)\\nodejs\\node.exe"));
        proof {
            assert(r.deep_view() =~= seq![
                "node.exe"@,
                "C:\\Program Files\\nodejs\\node.exe"@,
                "C:\\Program Files (x86)\\nodejs\\node.exe"@,
            ]);
        }
    } else {
        r.push(String::from_str("/usr/local/bin/node"));
        r.push(String::from_str("/opt/homebrew/bin/node"));
        r.push(String::from_str("/usr/bin/node"));
        r.push(String::from_str("/opt/local/bin/node"));
        let mut nvm = String::from_str(home);
        nvm.append("/.nvm/current/bin/node");
        r.push(nvm);
        let mut volta = String::from_str(home);
        volta.append("/.volta/bin/node");
        r.push(volta);
        proof {
            assert(r.deep_view() =~= seq![
                "/usr/local/bin/node"@,
                "/opt/homebrew/bin/node"@,
                "/usr/bin/node"@,
                "/opt/local/bin/node"@,
                home@ + "/.nvm/current/bin/node"@,
                home@ + "/.volta/bin/node"@,
            ]);
        }
    }
    r
}

/// The well-known install locations of the package manager, in the order
/// they are tried.
pub fn package_manager_well_known_paths(home: &str, windows: bool) -> (r: Vec<String>)
    ensures
        windows ==> r.deep_view() == seq!["npm.cmd"@, "C:\\Program Files\\nodejs\\npm.cmd"@],
        !windows ==> r.deep_view() == seq![
            "/usr/local/bin/npm"@,
            "/opt/homebrew/bin/npm"@,
            "/usr/bin/npm"@,
            home@ + "/.nvm/current/bin/npm"@,
            home@ + "/.volta/bin/npm"@,
        ],
{
    let mut r: Vec<String> = Vec::new();
    if windows {
        r.push(String::from_str("npm.cmd"));
        r.push(String::from_str("C:\\Program Files\\nodejs\\npm.cmd"));
        proof {
            assert(r.deep_view() =~= seq!["npm.cmd"@, "C:\\Program Files\\nodejs\\npm.cmd"@]);
        }
    } else {
        r.push(String::from_str("/usr/local/bin/npm"));
        r.push(String::from_str("/opt/homebrew/bin/npm"));
        r.push(String::from_str("/usr/bin/npm"));
        let mut nvm = String::from_str(home);
        nvm.append("/.nvm/current/bin/npm");
        r.push(nvm);
        let mut volta = String::from_str(home);
        volta.append("/.volta/bin/npm");
        r.push(volta);
        proof {
            assert(r.deep_view() =~= seq![
                "/usr/local/bin/npm"@,
                "/opt/homebrew/bin/npm"@,
                "/usr/bin/npm"@,
                home@ + "/.nvm/current/bin/npm"@,
                home@ + "/.volta/bin/npm"@,
            ]);
        }
    }
    r
}

/// The package manager anchored beside a resolved runtime binary: the
/// platform's manager name inside the runtime's own directory.
pub fn package_manager_beside_runtime(runtime_dir: &str, windows: bool) -> (r: String)
    ensures
        windows ==> r@ == runtime_dir@ + "\\npm.cmd"@,
        !windows ==> r@ == runtime_dir@ + "/npm"@,
{
    let mut r = String::from_str(runtime_dir);
    if windows {
        r.append("\\npm.cmd");
    } else {
        r.append("/npm");
    }
    r
}

/// The package manager's entry script under a runtime installation's prefix,
/// used to resolve the manager indirectly by invoking the runtime against it
/// when no direct binary can be found.
pub fn package_manager_entry_script(runtime_prefix: &str) -> (r: String)
    ensures
        r@ == runtime_prefix@ + "/lib/node_modules/npm/bin/npm-cli.js"@,
{
    let mut r = String::from_str(runtime_prefix);
    r.append("/lib/node_modules/npm/bin/npm-cli.js");
    r
}

/// Where the version manager keeps its installed runtime versions.
pub fn nvm_versions_dir(home: &str) -> (r: String)
    ensures
        r@ == home@ + "/.nvm/versions/node"@,
{
    let mut r = String::from_str(home);
    r.append("/.nvm/versions/node");
    r
}

/// The newest installed version among the version manager's directory
/// entries: a maximal name in lexicographic order (version names sort this
/// way), the way "sort descending and take the first" picks it.
pub fn latest_version_entry(entries: &Vec<String>) -> (r: Option<String>)
    ensures
        r is Some <==> entries@.len() > 0,
        r matches Some(p) ==> {
            &&& exists|i: int| 0 <= i < entries@.len() && entries@[i]@ == p@
            &&& forall|j: int| 0 <= j < entries@.len() ==> lex_le(entries@[j]@, p@)
        },
{
    if entries.len() == 0 {
        return None;
    }
    let mut best: usize = 0;
    let mut i: usize = 1;
    proof {
        lemma_lex_total(entries@[0]@, entries@[0]@);
    }
    while i < entries.len()
        invariant
            1 <= i <= entries@.len(),
            best < i,
            forall|j: int| 0 <= j < i ==> lex_le(entries@[j]@, entries@[best as int]@),
        decreases entries@.len() - i,
    {
        if !str_lex_le(entries[i].as_str(), entries[best].as_str()) {
            proof {
                lemma_lex_total(entries@[i as int]@, entries@[best as int]@);
                assert forall|j: int| 0 <= j <= i implies lex_le(
                    entries@[j]@,
                    entries@[i as int]@,
                ) by {
                    if j < i {
                        lemma_lex_trans(entries@[j]@, entries@[best as int]@, entries@[i as int]@);
                    } else {
                        lemma_lex_total(entries@[i as int]@, entries@[i as int]@);
                    }
                }
            }
            best = i;
        }
        i += 1;
    }
    let r = entries[best].clone();
    proof {
        assert(entries@[best as int]@ == r@);
    }
    Some(r)
}

/// The folder the system file browser is pointed at: a file's parent where
/// one is known, else the path itself.
pub fn folder_to_open(path: &String, is_file: bool, parent: Option<String>) -> (r: String)
    ensures
        (is_file && parent is Some) ==> r == parent.unwrap(),
        (is_file && parent is None) ==> r == path,
        !is_file ==> r == path,
{
    if is_file {
        match parent {
            Some(p) => p,
            None => path.clone(),
        }
    } else {
        path.clone()
    }
}

/// The message naming a missing file.
pub fn file_not_found_message(p: &str) -> (r: String)
    ensures
        r@ == "File not found: "@ + p@,
{
    let mut r = String::from_str("File not found: ");
    r.append(p);
    r
}

/// The message naming a missing folder.
pub fn folder_not_found_message(p: &str) -> (r: String)
    ensures
        r@ == "Folder not found: "@ + p@,
{
    let mut r = String::from_str("Folder not found: ");
    r.append(p);
    r
}

/// Resolve the optional browser-runtime root: the application-private
/// directory, else the development-mode convention, else nothing — absence is
/// not an error, PNG export is simply unavailable.
pub fn resolve_browser_root(private_root: &Candidate, dev_root: &Candidate) -> (r: Option<String>)
    ensures
        r is Some <==> (private_root.found || dev_root.found),
        private_root.found ==> (r matches Some(p) && p@ == private_root.path@),
        !private_root.found && dev_root.found ==> (r matches Some(p) && p@ == dev_root.path@),
{
    if private_root.found {
        Some(private_root.path.clone())
    } else if dev_root.found {
        Some(dev_root.path.clone())
    } else {
        None
    }
}

} // verus!
