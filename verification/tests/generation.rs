use gantt_runtime::args::{build_generation_args, build_generation_env, prepend_search_path};
use gantt_runtime::errors::HostError;
use gantt_runtime::events::GenerateOptions;
use gantt_runtime::job::{generation_failure_message, standard_marker_rules, JobEvent, JobState};
use gantt_runtime::parse::{
    excel_parse_failure_message, parse_dispatch, parse_script_missing_message, ParseAction,
};
use gantt_runtime::validate::{extension_of, validate_input, validate_png_export};

fn opts() -> GenerateOptions {
    GenerateOptions {
        input_path: String::from("plan.xlsx"),
        output_path: None,
        palette: String::from("reds"),
        export_png: false,
        png_drop_shadow: false,
        view_mode: String::from("month"),
    }
}

#[test]
fn argument_vector_holds_the_required_options_in_order() {
    let args = build_generation_args("/app/scripts/build.js", &opts());
    assert_eq!(
        args,
        vec![
            "/app/scripts/build.js",
            "--input",
            "plan.xlsx",
            "--palette",
            "reds",
            "--view-mode",
            "month",
            "--no-png",
        ]
    );
}

#[test]
fn argument_vector_adds_output_png_and_shadow_flags() {
    let mut o = opts();
    o.output_path = Some(String::from("out/plan.html"));
    o.export_png = true;
    o.png_drop_shadow = true;
    let args = build_generation_args("build.js", &o);
    assert_eq!(
        args,
        vec![
            "build.js",
            "--input",
            "plan.xlsx",
            "--palette",
            "reds",
            "--view-mode",
            "month",
            "--output",
            "out/plan.html",
            "--png",
            "--drop-shadow",
        ]
    );
}

#[test]
fn environment_carries_exactly_the_resolved_roots() {
    let env = build_generation_env(
        Some(String::from("/data/dependencies")),
        Some(String::from("/data/dependencies/playwright-browsers")),
    );
    assert_eq!(env.len(), 2);
    assert_eq!(env[0].0, "NODE_PATH");
    assert_eq!(env[0].1, "/data/dependencies");
    assert_eq!(env[1].0, "PLAYWRIGHT_BROWSERS_PATH");
    assert_eq!(env[1].1, "/data/dependencies/playwright-browsers");
    assert!(build_generation_env(None, None).is_empty());
}

#[test]
fn search_path_prepending_is_idempotent() {
    assert_eq!(prepend_search_path("/n/bin", "", false), "/n/bin");
    assert_eq!(prepend_search_path("/n/bin", "/usr/bin:/n/bin", false), "/usr/bin:/n/bin");
    assert_eq!(prepend_search_path("/n/bin", "/usr/bin", false), "/n/bin:/usr/bin");
    assert_eq!(prepend_search_path("C:\\n", "C:\\w", true), "C:\\n;C:\\w");
}

#[test]
fn validation_accepts_the_recognised_extensions_whatever_their_case() {
    assert!(validate_input("a.json", true).is_ok());
    assert!(validate_input("a.XLSX", true).is_ok());
    assert!(validate_input("dir.v2/a.xls", true).is_ok());
}

#[test]
fn validation_rejects_an_unrecognised_extension_with_its_name() {
    match validate_input("a.txt", true) {
        Err(HostError::Validation(d)) => {
            assert_eq!(d, "Invalid file type: .txt. Expected .json or .xlsx");
        }
        _ => panic!("expected a validation failure"),
    }
}

#[test]
fn validation_rejects_a_path_without_an_extension() {
    assert!(validate_input("noext", true).is_err());
    assert!(validate_input(".json", true).is_err());
    assert!(validate_input("dir.d/name", true).is_err());
}

#[test]
fn png_export_without_the_browser_runtime_is_rejected() {
    assert!(validate_png_export(false, false).is_ok());
    assert!(validate_png_export(false, true).is_ok());
    assert!(validate_png_export(true, true).is_ok());
    match validate_png_export(true, false) {
        Err(HostError::Precondition(d)) => assert_eq!(
            d,
            "PNG export requires the internal browser runtime. Please install it from the Setup panel before exporting PNG."
        ),
        _ => panic!("expected a precondition failure"),
    }
}

#[test]
fn extension_is_taken_from_the_file_name_only() {
    assert_eq!(extension_of("a/b.json"), Some("json"));
    assert_eq!(extension_of("a.d/b"), None);
    assert_eq!(extension_of(".hidden"), None);
    assert_eq!(extension_of("archive.tar.gz"), Some("gz"));
    assert_eq!(extension_of("trailing."), Some(""));
    assert_eq!(extension_of("c:\\work\\plan.XLSX"), Some("XLSX"));
}

#[test]
fn parse_dispatch_routes_by_extension() {
    assert_eq!(parse_dispatch("a.json", true).unwrap(), ParseAction::ReadJson);
    assert_eq!(parse_dispatch("a.xlsx", true).unwrap(), ParseAction::RunParseScript);
    assert_eq!(parse_dispatch("a.XLS", true).unwrap(), ParseAction::RunParseScript);
}

#[test]
fn parse_dispatch_rejects_missing_and_unsupported_files() {
    match parse_dispatch("gone.json", false) {
        Err(HostError::Validation(d)) => assert_eq!(d, "File does not exist: gone.json"),
        _ => panic!("expected a validation failure"),
    }
    match parse_dispatch("notes.txt", true) {
        Err(HostError::Validation(d)) => {
            assert_eq!(d, "Unsupported file type for parsing: txt")
        }
        _ => panic!("expected a validation failure"),
    }
}

#[test]
fn parse_messages_name_the_resource() {
    assert_eq!(
        parse_script_missing_message("/app/scripts/parse-file.js"),
        "Parse script not found at: /app/scripts/parse-file.js"
    );
    assert_eq!(
        excel_parse_failure_message("bad sheet"),
        "Failed to parse Excel file: bad sheet"
    );
}

#[test]
fn failure_message_wraps_the_detail() {
    assert_eq!(generation_failure_message("boom"), "Generation failed:\nboom");
}

#[test]
fn inline_png_capture_and_info_log_accompany_the_marker_line() {
    let (mut job, _) = JobState::start(standard_marker_rules(), true, "t");
    let evs = job.on_stdout_line(String::from("Generated PNG at chart.png"), "t");
    assert_eq!(evs.len(), 2);
    match &evs[1] {
        JobEvent::Log(e) => {
            assert_eq!(e.level, "info");
            assert_eq!(e.message, "PNG generated: chart.png");
        }
        _ => panic!("expected an info log"),
    }
    let (result, _) = job.finish(true, "t");
    assert_eq!(result.unwrap().png_path.as_deref(), Some("chart.png"));
}

#[test]
fn fallback_scan_finds_paths_the_stream_missed() {
    let (mut job, _) = JobState::start(standard_marker_rules(), true, "t");
    // No fixed marker, so nothing is captured inline.
    let _ = job.on_stdout_line(String::from("wrote output to build/report.html"), "t");
    let _ = job.on_stdout_line(String::from("saved PNG image build/report.png"), "t");
    let (result, _) = job.finish(true, "t");
    let r = result.unwrap();
    assert_eq!(r.html_path.as_deref(), Some("build/report.html"));
    assert_eq!(r.png_path.as_deref(), Some("build/report.png"));
}

#[test]
fn failed_job_without_stderr_reports_the_output_buffer() {
    let (mut job, _) = JobState::start(standard_marker_rules(), false, "t");
    let _ = job.on_stdout_line(String::from("first"), "t");
    let _ = job.on_stdout_line(String::from("second"), "t");
    let (result, evs) = job.finish(false, "t");
    match result {
        Err(HostError::ProcessExit(d)) => assert_eq!(d, "first\nsecond"),
        _ => panic!("expected a process-exit failure"),
    }
    match &evs[1] {
        JobEvent::Progress(p) => {
            assert_eq!(p.step, "Failed");
            assert_eq!(p.progress, 100);
        }
        _ => panic!("expected the terminal progress event"),
    }
}

#[test]
fn blank_stderr_lines_are_buffered_but_not_surfaced() {
    let (mut job, _) = JobState::start(standard_marker_rules(), false, "t");
    let evs = job.on_stderr_line(String::from("   "), "t");
    assert!(evs.is_empty());
    let evs = job.on_stderr_line(String::from("warning: deprecated"), "t");
    assert_eq!(evs.len(), 1);
}
