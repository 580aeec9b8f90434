use gantt_runtime::errors::HostError;
use gantt_runtime::paths::{
    folder_to_open, latest_version_entry, nvm_versions_dir, package_manager_well_known_paths,
    resolve_browser_root, resolve_dependency_root, resolve_first, resolve_package_manager,
    resolve_runtime, resolve_scripts_dir, runtime_well_known_paths, Candidate,
};

fn cand(path: &str, found: bool) -> Candidate {
    Candidate { path: String::from(path), found }
}

#[test]
fn first_found_candidate_wins() {
    let cands = vec![cand("a", false), cand("b", true), cand("c", true)];
    assert_eq!(resolve_first(&cands).as_deref(), Some("b"));
}

#[test]
fn no_found_candidate_resolves_to_nothing() {
    let cands = vec![cand("a", false), cand("b", false)];
    assert_eq!(resolve_first(&cands), None);
}

#[test]
fn scripts_failure_names_every_checked_location() {
    let cands = vec![cand("/app/scripts", false), cand("/res/scripts", false)];
    match resolve_scripts_dir(&cands) {
        Err(HostError::PathResolution(d)) => {
            assert_eq!(
                d,
                "Build script not found. Checked locations:\n  - /app/scripts\n  - /res/scripts\nPlease ensure the app is properly installed."
            );
        }
        _ => panic!("expected a path-resolution failure"),
    }
}

#[test]
fn runtime_failure_has_the_corrective_message() {
    match resolve_runtime(&vec![]) {
        Err(HostError::PathResolution(d)) => {
            assert_eq!(
                d,
                "Node.js not found. Please install Node.js and ensure it's in your PATH, or set the NODE_PATH environment variable."
            );
        }
        _ => panic!("expected a path-resolution failure"),
    }
}

#[test]
fn package_manager_failure_has_the_corrective_message() {
    match resolve_package_manager(&vec![]) {
        Err(HostError::PathResolution(d)) => {
            assert_eq!(
                d,
                "npm not found. Please install Node.js (which includes npm) from https://nodejs.org"
            );
        }
        _ => panic!("expected a path-resolution failure"),
    }
}

#[test]
fn dependency_root_prefers_the_private_directory() {
    let r = resolve_dependency_root(&cand("/data/deps/node_modules", true), &cand("/app/scripts/node_modules", true));
    assert_eq!(r.unwrap(), "/data/deps/node_modules");
}

#[test]
fn dependency_root_falls_back_to_the_bundled_directory() {
    let r = resolve_dependency_root(&cand("/data/deps/node_modules", false), &cand("/app/scripts/node_modules", true));
    assert_eq!(r.unwrap(), "/app/scripts/node_modules");
}

#[test]
fn missing_dependency_root_names_the_setup_action() {
    let r = resolve_dependency_root(&cand("x", false), &cand("y", false));
    match r {
        Err(HostError::PathResolution(d)) => assert_eq!(
            d,
            "Dependencies not installed. Please use the Setup button to install required dependencies."
        ),
        _ => panic!("expected a path-resolution failure"),
    }
}

#[test]
fn absent_browser_root_is_not_an_error() {
    assert_eq!(resolve_browser_root(&cand("a", false), &cand("b", false)), None);
    assert_eq!(resolve_browser_root(&cand("a", true), &cand("b", true)).as_deref(), Some("a"));
    assert_eq!(resolve_browser_root(&cand("a", false), &cand("b", true)).as_deref(), Some("b"));
}

#[test]
fn well_known_runtime_locations_follow_the_platform() {
    let unix = runtime_well_known_paths("/home/u", false);
    assert_eq!(
        unix,
        vec![
            "/usr/local/bin/node",
            "/opt/homebrew/bin/node",
            "/usr/bin/node",
            "/opt/local/bin/node",
            "/home/u/.nvm/current/bin/node",
            "/home/u/.volta/bin/node",
        ]
    );
    let windows = runtime_well_known_paths("", true);
    assert_eq!(
        windows,
        vec![
            "node.exe",
            "C:\\Program Files\\nodejs\\node.exe",
            "C:\\Program Files (x86)\\nodejs\\node.exe",
        ]
    );
}

#[test]
fn well_known_package_manager_locations_follow_the_platform() {
    let unix = package_manager_well_known_paths("/home/u", false);
    assert_eq!(
        unix,
        vec![
            "/usr/local/bin/npm",
            "/opt/homebrew/bin/npm",
            "/usr/bin/npm",
            "/home/u/.nvm/current/bin/npm",
            "/home/u/.volta/bin/npm",
        ]
    );
    let windows = package_manager_well_known_paths("", true);
    assert_eq!(windows, vec!["npm.cmd", "C:\\Program Files\\nodejs\\npm.cmd"]);
}

#[test]
fn nvm_versions_directory_is_under_home() {
    assert_eq!(nvm_versions_dir("/home/u"), "/home/u/.nvm/versions/node");
}

#[test]
fn latest_version_entry_picks_the_greatest_name() {
    let entries = vec![
        String::from("v18.19.0"),
        String::from("v24.12.0"),
        String::from("v20.10.0"),
    ];
    assert_eq!(latest_version_entry(&entries).as_deref(), Some("v24.12.0"));
    assert_eq!(latest_version_entry(&vec![]), None);
    let tied = vec![String::from("v20"), String::from("v20")];
    assert_eq!(latest_version_entry(&tied).as_deref(), Some("v20"));
}

#[test]
fn folder_to_open_takes_a_files_parent() {
    let p = String::from("/work/out.html");
    assert_eq!(folder_to_open(&p, true, Some(String::from("/work"))), "/work");
    assert_eq!(folder_to_open(&p, true, None), "/work/out.html");
    assert_eq!(folder_to_open(&String::from("/work"), false, None), "/work");
}
