use gantt_runtime::errors::HostError;
use gantt_runtime::install::{
    browser_install_args, browser_target_dir, dep_install_args, BrowserInstall, DepInstall,
};
use gantt_runtime::palette::get_palette_info;
use gantt_runtime::runtime_install::{
    on_step_result, runtime_install_plan, InstallAction, Platform,
};
use gantt_runtime::status::{build_dependency_status, dependency_marker, make_build_info};

#[test]
fn dependency_install_streams_saturating_progress() {
    let (mut st, evs) = DepInstall::start("/d/package.json", true).unwrap();
    assert_eq!(evs.len(), 3);
    assert_eq!(evs[0].stage, "Preparing");
    assert_eq!(evs[0].progress, 5);
    assert_eq!(evs[2].stage, "Installing");
    assert_eq!(evs[2].progress, 20);

    let ev = st.on_output_line(String::from("added 120 packages in 20s"));
    assert_eq!(ev.progress, 30);
    let ev = st.on_output_line(String::from("plain chatter"));
    assert_eq!(ev.progress, 30);
    for _ in 0..10 {
        st.on_output_line(String::from("added more packages"));
    }
    let ev = st.on_output_line(String::from("added again"));
    assert_eq!(ev.progress, 90);

    let (result, done) = st.finish(true);
    assert_eq!(result.unwrap(), true);
    assert_eq!(done.stage, "Complete");
    assert_eq!(done.progress, 100);
    assert!(done.complete);
    assert!(done.error.is_none());
    assert_eq!(
        done.message,
        "Dependencies installed. Install the internal browser to enable PNG export."
    );
}

#[test]
fn dependency_failure_collects_non_warning_diagnostics() {
    let (mut st, _) = DepInstall::start("/d/package.json", true).unwrap();
    st.on_error_line(String::from("npm WARN deprecated thing"));
    st.on_error_line(String::from(""));
    st.on_error_line(String::from("ERR! could not resolve"));
    st.on_error_line(String::from("ERR! network down"));
    let (result, done) = st.finish(false);
    match result {
        Err(HostError::ProcessExit(d)) => {
            assert_eq!(d, "ERR! could not resolve\nERR! network down")
        }
        _ => panic!("expected a process-exit failure"),
    }
    assert_eq!(done.stage, "Error");
    assert!(done.complete);
    assert_eq!(done.error.as_deref(), Some("ERR! could not resolve\nERR! network down"));
}

#[test]
fn dependency_failure_without_diagnostics_has_a_fixed_message() {
    let (mut st, _) = DepInstall::start("/d/package.json", true).unwrap();
    let (result, _) = st.finish(false);
    match result {
        Err(HostError::ProcessExit(d)) => assert_eq!(d, "npm install failed"),
        _ => panic!("expected a process-exit failure"),
    }
}

#[test]
fn dependency_install_arguments_are_production_only() {
    assert_eq!(dep_install_args(), vec!["install", "--production"]);
}

#[test]
fn browser_install_requires_dependencies_first() {
    match BrowserInstall::start(false, false) {
        Err(HostError::Precondition(d)) => assert_eq!(
            d,
            "Install dependencies first before installing the PNG browser runtime."
        ),
        _ => panic!("expected a precondition failure"),
    }
}

#[test]
fn browser_install_is_a_no_op_when_already_installed() {
    let (state, evs) = BrowserInstall::start(true, true).unwrap();
    assert!(state.is_none());
    assert_eq!(evs.len(), 1);
    assert_eq!(evs[0].stage, "Complete");
    assert_eq!(evs[0].progress, 100);
    assert!(evs[0].complete);
}

#[test]
fn browser_install_streams_and_finishes() {
    let (state, evs) = BrowserInstall::start(true, false).unwrap();
    let mut st = state.unwrap();
    assert_eq!(evs[0].stage, "Installing");
    assert_eq!(evs[0].progress, 92);

    assert!(st.on_output_line(String::from("  ")).is_none());
    let ev = st.on_output_line(String::from("downloading chromium")).unwrap();
    assert_eq!(ev.progress, 95);

    st.on_error_line(String::from("   "));
    st.on_error_line(String::from("no display found"));
    let (result, done) = st.finish(false);
    match result {
        Err(HostError::ProcessExit(d)) => assert_eq!(d, "no display found"),
        _ => panic!("expected a process-exit failure"),
    }
    assert_eq!(done.error.as_deref(), Some("no display found"));

    let (ok, done) = st.finish(true);
    assert_eq!(ok.unwrap(), true);
    assert_eq!(done.message, "PNG browser runtime installed successfully.");
}

#[test]
fn browser_failure_without_diagnostics_has_a_fixed_message() {
    let (state, _) = BrowserInstall::start(true, false).unwrap();
    let st = state.unwrap();
    let (result, _) = st.finish(false);
    match result {
        Err(HostError::ProcessExit(d)) => {
            assert_eq!(d, "Failed to install Chromium runtime for PNG export")
        }
        _ => panic!("expected a process-exit failure"),
    }
}

#[test]
fn browser_install_arguments_follow_the_platform() {
    assert_eq!(browser_install_args(false), vec!["exec", "playwright", "install", "chromium"]);
    assert_eq!(
        browser_install_args(true),
        vec!["exec", "playwright", "install", "chromium", "--with-deps"]
    );
    assert_eq!(browser_target_dir("/data/deps"), "/data/deps/playwright-browsers");
}

#[test]
fn runtime_plan_downloads_the_pinned_archive() {
    let plan = runtime_install_plan(Platform::LinuxX64, "/data", "/tmp/w");
    assert_eq!(plan.len(), 11);
    match &plan[2] {
        InstallAction::Download { url, dest } => {
            assert_eq!(url, "https://nodejs.org/dist/v24.12.0/node-v24.12.0-linux-x64.tar.gz");
            assert_eq!(dest, "/tmp/w/node-v24.12.0-linux-x64.tar.gz");
        }
        _ => panic!("expected the download step"),
    }
    match &plan[3] {
        InstallAction::Extract { archive, dest, zip } => {
            assert_eq!(archive, "/tmp/w/node-v24.12.0-linux-x64.tar.gz");
            assert_eq!(dest, "/tmp/w/node-extract");
            assert!(!zip);
        }
        _ => panic!("expected the extraction step"),
    }
    match &plan[4] {
        InstallAction::CopyRuntime { from, to } => {
            assert_eq!(from, "/tmp/w/node-extract/node-v24.12.0-linux-x64");
            assert_eq!(to, "/data/node");
        }
        _ => panic!("expected the copy step"),
    }
    assert!(matches!(&plan[7], InstallAction::MarkExecutable(p) if p == "/data/node/npm"));
    assert!(matches!(&plan[9], InstallAction::VerifyVersion { tool } if tool == "/data/node/bin/node"));
    assert!(matches!(&plan[10], InstallAction::VerifyVersion { tool } if tool == "/data/node/npm"));
}

#[test]
fn runtime_plan_on_windows_uses_zip_and_cmd_wrappers() {
    let plan = runtime_install_plan(Platform::WindowsX64, "C:\\data", "C:\\tmp");
    assert_eq!(plan.len(), 9);
    match &plan[3] {
        InstallAction::Extract { zip, .. } => assert!(zip),
        _ => panic!("expected the extraction step"),
    }
    match &plan[5] {
        InstallAction::WriteWrapper { path, contents } => {
            assert_eq!(path, "C:\\data\\node\\npm.cmd");
            assert!(contents.starts_with("@echo off"));
        }
        _ => panic!("expected the wrapper step"),
    }
    assert!(matches!(&plan[7], InstallAction::VerifyVersion { tool } if tool == "C:\\data\\node\\node.exe"));
}

#[test]
fn unix_wrappers_reinvoke_the_runtime_against_the_entry_script() {
    let plan = runtime_install_plan(Platform::MacArm64, "/data", "/tmp/w");
    match &plan[5] {
        InstallAction::WriteWrapper { path, contents } => {
            assert_eq!(path, "/data/node/npm");
            assert_eq!(
                contents,
                "#!/bin/sh\nDIR=\"$(dirname \"$0\")\"\nexec \"$DIR/bin/node\" \"$DIR/lib/node_modules/npm/bin/npm-cli.js\" \"$@\"\n"
            );
        }
        _ => panic!("expected the wrapper step"),
    }
}

#[test]
fn a_failed_step_aborts_with_its_label_and_kind() {
    let plan = runtime_install_plan(Platform::LinuxX64, "/data", "/tmp/w");
    assert_eq!(on_step_result(&plan, 0, true).unwrap(), Some(1));
    assert_eq!(on_step_result(&plan, 10, true).unwrap(), None);
    match on_step_result(&plan, 2, false) {
        Err(HostError::Download(d)) => {
            assert_eq!(d, "Runtime installation failed while downloading the runtime archive")
        }
        _ => panic!("expected a download failure"),
    }
    match on_step_result(&plan, 3, false) {
        Err(HostError::Extraction(_)) => {}
        _ => panic!("expected an extraction failure"),
    }
    match on_step_result(&plan, 9, false) {
        Err(HostError::Verification(d)) => {
            assert_eq!(d, "Runtime installation failed while verifying the installed tools")
        }
        _ => panic!("expected a verification failure"),
    }
}

#[test]
fn spawn_failures_name_the_tool_and_the_reason() {
    let e = HostError::spawn_failure("node", "No such file or directory");
    match e {
        HostError::ProcessSpawn(d) => {
            assert_eq!(d, "Failed to start node: No such file or directory")
        }
        _ => panic!("expected a process-spawn failure"),
    }
}

#[test]
fn build_info_shortens_the_commit_to_seven_characters() {
    let b = make_build_info(
        String::from("2026-10-11T10:00:00Z"),
        String::from("0123456789abcdef"),
        String::from("main"),
        true,
    );
    assert_eq!(b.commit_short, "0123456");
    assert!(b.is_release);
    let b = make_build_info(String::from("d"), String::from("abc"), String::from("m"), false);
    assert_eq!(b.commit_short, "abc");
}

#[test]
fn status_fields_degrade_independently() {
    let s = build_dependency_status(None, Some(String::from("11.0.0")), false, None, None, true);
    assert!(!s.node_available);
    assert!(s.node_version.is_none());
    assert!(s.npm_available);
    assert_eq!(s.npm_version.as_deref(), Some("11.0.0"));
    assert!(!s.dependencies_installed);
    assert!(s.browser_installed);
    assert_eq!(dependency_marker(), "exceljs");
}

#[test]
fn palette_catalogue_lists_the_seven_palettes() {
    let palettes = get_palette_info();
    assert_eq!(palettes.len(), 7);
    let ids: Vec<&str> = palettes.iter().map(|p| p.id.as_str()).collect();
    assert_eq!(
        ids,
        vec!["alternating", "alternating_b", "reds", "reds_b", "purples_a", "purples_b", "purples_c"]
    );
    assert_eq!(palettes[0].colors.len(), 5);
    assert_eq!(palettes[0].colors[0], "#F01840");
    assert!(palettes[0].accent_border.is_none());
    assert_eq!(palettes[1].accent_border.as_deref(), Some("#C01830"));
    assert_eq!(palettes[4].accent_color.as_deref(), Some("#901226"));
    assert_eq!(palettes[6].accent_border.as_deref(), Some("#C01830"));
    assert_eq!(palettes[6].accent_color.as_deref(), Some("#901226"));
    assert_eq!(palettes[2].name, "Reds");
    assert_eq!(palettes[4].colors.len(), 3);
}
