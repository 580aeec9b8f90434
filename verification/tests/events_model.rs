use gantt_runtime::events::{LogEntry, LogLevel, LogSource};
use gantt_runtime::job::{standard_marker_rules, JobEvent, JobState};
use gantt_runtime::paths::{package_manager_beside_runtime, package_manager_entry_script};

#[test]
fn log_entries_carry_the_wire_names() {
    let e = LogEntry::new(
        LogLevel::Warn,
        LogSource::Job,
        String::from("deprecated"),
        String::from("10:00:00.000"),
    );
    assert_eq!(e.level, "warn");
    assert_eq!(e.source, "node");
    assert_eq!(e.message, "deprecated");
    assert_eq!(e.timestamp, "10:00:00.000");

    let e = LogEntry::new(LogLevel::Error, LogSource::Host, String::new(), String::new());
    assert_eq!(e.level, "error");
    assert_eq!(e.source, "rust");
    let e = LogEntry::new(LogLevel::Debug, LogSource::System, String::new(), String::new());
    assert_eq!(e.level, "debug");
    assert_eq!(e.source, "system");
    let e = LogEntry::new(LogLevel::Info, LogSource::Host, String::new(), String::new());
    assert_eq!(e.level, "info");
}

#[test]
fn marker_table_rules_are_ordered_with_fixed_values() {
    let rules = standard_marker_rules();
    let needles: Vec<&str> = rules.iter().map(|r| r.needle.as_str()).collect();
    assert_eq!(needles, vec!["Parsing", "Generating HTML", "Exporting PNG"]);
    let values: Vec<u8> = rules.iter().map(|r| r.value).collect();
    assert_eq!(values, vec![40, 60, 80]);
    assert_eq!(rules[0].label, "Parsing input file...");
}

#[test]
fn every_stdout_line_gets_a_debug_log_first() {
    let (mut job, _) = JobState::start(standard_marker_rules(), false, "ts");
    let evs = job.on_stdout_line(String::from("plain chatter"), "ts");
    assert_eq!(evs.len(), 1);
    match &evs[0] {
        JobEvent::Log(e) => {
            assert_eq!(e.level, "debug");
            assert_eq!(e.source, "node");
            assert_eq!(e.message, "plain chatter");
            assert_eq!(e.timestamp, "ts");
        }
        _ => panic!("expected a debug log"),
    }
}

#[test]
fn a_cue_line_gets_its_progress_event_after_the_log() {
    let (mut job, _) = JobState::start(standard_marker_rules(), false, "ts");
    let _ = job.running("ts");
    let evs = job.on_stdout_line(String::from("Generating HTML layout"), "ts");
    assert_eq!(evs.len(), 2);
    match &evs[1] {
        JobEvent::Progress(p) => {
            assert_eq!(p.step, "Generating HTML...");
            assert_eq!(p.progress, 60);
        }
        _ => panic!("expected a progress event"),
    }
}

#[test]
fn transcript_keeps_every_output_line_in_order() {
    let (mut job, _) = JobState::start(standard_marker_rules(), false, "ts");
    let _ = job.on_stdout_line(String::from("one"), "ts");
    let _ = job.on_stdout_line(String::from(""), "ts");
    let _ = job.on_stdout_line(String::from("three"), "ts");
    let (result, _) = job.finish(true, "ts");
    assert_eq!(result.unwrap().message, "one\n\nthree");
}

#[test]
fn package_manager_anchors_follow_the_platform() {
    assert_eq!(package_manager_beside_runtime("/n/bin", false), "/n/bin/npm");
    assert_eq!(
        package_manager_beside_runtime("C:\\nodejs", true),
        "C:\\nodejs\\npm.cmd"
    );
    assert_eq!(
        package_manager_entry_script("/n"),
        "/n/lib/node_modules/npm/bin/npm-cli.js"
    );
}
