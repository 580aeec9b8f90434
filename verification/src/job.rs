//! The process orchestrator and event streamer: the generation job's output
//! lines come in one at a time, in the order they were read, and come back
//! out as ordered progress and log events plus a final structured result.
//!
//! Classification is driven by a marker table — an ordered list of
//! (substring, step label, progress value) rules — rather than being wired
//! into the control flow, and every emitted progress value is clamped so the
//! sequence a job emits never decreases.

use vstd::prelude::*;
use crate::errors::HostError;
use crate::events::{GenerateResult, LogEntry, LogLevel, LogSource, ProgressUpdate};
use crate::text::{
    contains_seq, ends_with_seq, join_lines, join_with, last_token, last_token_of, str_contains,
    str_ends_with, str_is_blank, all_space,
};

verus! {

/// One event of a running job, in the order it must reach the sink.
#[derive(Clone, Debug)]
pub enum JobEvent {
    Progress(ProgressUpdate),
    Log(LogEntry),
}

/// The event is a log entry with exactly these fields.
pub open spec fn is_log_event(
    ev: JobEvent,
    level: LogLevel,
    source: LogSource,
    message: Seq<char>,
    ts: Seq<char>,
) -> bool {
    &&& ev matches JobEvent::Log(e)
    &&& ev->Log_0.level@ == level.spec_name()
    &&& ev->Log_0.source@ == source.spec_name()
    &&& ev->Log_0.message@ == message
    &&& ev->Log_0.timestamp@ == ts
}

/// The event is a progress milestone with exactly this label and value.
pub open spec fn is_progress_event(ev: JobEvent, step: Seq<char>, value: u8) -> bool {
    &&& ev matches JobEvent::Progress(p)
    &&& ev->Progress_0.step@ == step
    &&& ev->Progress_0.progress == value
}

/// One rule of the marker table: when `needle` occurs in an output line, the
/// job has reached the milestone `label` at `value` percent.
#[derive(Clone, Debug)]
pub struct MarkerRule {
    pub needle: String,
    pub label: String,
    pub value: u8,
}

/// The first rule whose needle occurs in the line, if any — the rules are
/// ordered, and earlier rules win.
pub open spec fn spec_classify(rules: Seq<MarkerRule>, line: Seq<char>) -> Option<MarkerRule>
    decreases rules.len(),
{
    if rules.len() == 0 {
        None
    } else if contains_seq(line, rules[0].needle@) {
        Some(rules[0])
    } else {
        spec_classify(rules.drop_first(), line)
    }
}

proof fn lemma_classify_member(rules: Seq<MarkerRule>, line: Seq<char>)
    requires
        spec_classify(rules, line) is Some,
    ensures
        exists|i: int|
            0 <= i < rules.len() && rules[i] == spec_classify(rules, line).unwrap(),
    decreases rules.len(),
{
    if rules.len() == 0 {
    } else if contains_seq(line, rules[0].needle@) {
        assert(rules[0] == spec_classify(rules, line).unwrap());
    } else {
        lemma_classify_member(rules.drop_first(), line);
        let i = choose|i: int|
            0 <= i < rules.drop_first().len() && rules.drop_first()[i] == spec_classify(
                rules.drop_first(),
                line,
            ).unwrap();
        assert(rules[i + 1] == spec_classify(rules, line).unwrap());
    }
}

proof fn lemma_classify_skip(rules: Seq<MarkerRule>, line: Seq<char>, i: int)
    requires
        0 <= i < rules.len(),
        !contains_seq(line, rules[i].needle@),
    ensures
        spec_classify(rules.skip(i), line) == spec_classify(rules.skip(i + 1), line),
{
    assert(rules.skip(i)[0] == rules[i]);
    assert(rules.skip(i).drop_first() =~= rules.skip(i + 1));
}

/// Find the first applicable rule and hand back its label and value.
fn classify_line(rules: &Vec<MarkerRule>, line: &str) -> (r: Option<(String, u8)>)
    ensures
        r is Some <==> spec_classify(rules@, line@) is Some,
        r matches Some(lv) ==> (spec_classify(rules@, line@) matches Some(rule) && lv.0@
            == rule.label@ && lv.1 == rule.value),
{
    let n = rules.len();
    let mut i: usize = 0;
    proof {
        assert(rules@.skip(0) =~= rules@);
    }
    while i < n
        invariant
            i <= n,
            n == rules@.len(),
            spec_classify(rules@, line@) == spec_classify(rules@.skip(i as int), line@),
        decreases n - i,
    {
        if str_contains(line, rules[i].needle.as_str()) {
            proof {
                assert(rules@.skip(i as int)[0] == rules@[i as int]);
            }
            return Some((rules[i].label.clone(), rules[i].value));
        }
        proof {
            lemma_classify_skip(rules@, line@, i as int);
        }
        i += 1;
    }
    proof {
        assert(rules@.skip(n as int) =~= Seq::<MarkerRule>::empty());
    }
    None
}

/// The standard marker table of the generation job's protocol: the three
/// case-sensitive cues it prints, at their fixed progress values.
pub fn standard_marker_rules() -> (r: Vec<MarkerRule>)
    ensures
        r@.len() == 3,
        r@[0].needle@ == "Parsing"@ && r@[0].label@ == "Parsing input file..."@ && r@[0].value
            == 40,
        r@[1].needle@ == "Generating HTML"@ && r@[1].label@ == "Generating HTML..."@
            && r@[1].value == 60,
        r@[2].needle@ == "Exporting PNG"@ && r@[2].label@ == "Exporting PNG..."@ && r@[2].value
            == 80,
        forall|i: int| 0 <= i < r@.len() ==> r@[i].value <= 100,
{
    let mut r: Vec<MarkerRule> = Vec::new();
    r.push(
        MarkerRule {
            needle: String::from_str("Parsing"),
            label: String::from_str("Parsing input file..."),
            value: 40,
        },
    );
    r.push(
        MarkerRule {
            needle: String::from_str("Generating HTML"),
            label: String::from_str("Generating HTML..."),
            value: 60,
        },
    );
    r.push(
        MarkerRule {
            needle: String::from_str("Exporting PNG"),
            label: String::from_str("Exporting PNG..."),
            value: 80,
        },
    );
    r
}

/// The line names a produced artifact: it holds one of the fixed output
/// markers.
pub open spec fn has_output_marker(l: Seq<char>) -> bool {
    ||| contains_seq(l, "Generated:"@)
    ||| contains_seq(l, "Output:"@)
    ||| contains_seq(l, "Generated PNG"@)
    ||| contains_seq(l, "Generated HTML"@)
}

/// The line names the derived HTML artifact.
pub open spec fn captures_html(l: Seq<char>) -> bool {
    has_output_marker(l) && ends_with_seq(l, ".html"@)
}

/// The line names the derived PNG artifact. The HTML test comes first, so a
/// line is never read as both.
pub open spec fn captures_png(l: Seq<char>) -> bool {
    has_output_marker(l) && !ends_with_seq(l, ".html"@) && ends_with_seq(l, ".png"@)
}

fn has_output_marker_exec(line: &str) -> (b: bool)
    ensures
        b == has_output_marker(line@),
{
    str_contains(line, "Generated:") || str_contains(line, "Output:") || str_contains(
        line,
        "Generated PNG",
    ) || str_contains(line, "Generated HTML")
}

/// The secondary-scan test for an HTML path, applied only when no line
/// captured one inline.
pub open spec fn html_fallback_match(l: Seq<char>) -> bool {
    &&& ends_with_seq(l, ".html"@)
    &&& (contains_seq(l, "output"@) || contains_seq(l, "Output"@) || contains_seq(
        l,
        "Generated HTML"@,
    ) || contains_seq(l, "Generated:"@))
}

/// The secondary-scan test for a PNG path.
pub open spec fn png_fallback_match(l: Seq<char>) -> bool {
    &&& ends_with_seq(l, ".png"@)
    &&& (contains_seq(l, "Generated PNG"@) || contains_seq(l, "Generated:"@) || contains_seq(
        l,
        "PNG"@,
    ))
}

/// The last token of the last line that passes the HTML fallback test.
pub open spec fn scan_html(lines: Seq<Seq<char>>) -> Option<Seq<char>>
    decreases lines.len(),
{
    if lines.len() == 0 {
        None
    } else if html_fallback_match(lines.last()) {
        Some(last_token(lines.last()))
    } else {
        scan_html(lines.drop_last())
    }
}

/// The last token of the last line that passes the PNG fallback test.
pub open spec fn scan_png(lines: Seq<Seq<char>>) -> Option<Seq<char>>
    decreases lines.len(),
{
    if lines.len() == 0 {
        None
    } else if png_fallback_match(lines.last()) {
        Some(last_token(lines.last()))
    } else {
        scan_png(lines.drop_last())
    }
}

fn html_fallback_match_exec(line: &str) -> (b: bool)
    ensures
        b == html_fallback_match(line@),
{
    str_ends_with(line, ".html") && (str_contains(line, "output") || str_contains(line, "Output")
        || str_contains(line, "Generated HTML") || str_contains(line, "Generated:"))
}

fn png_fallback_match_exec(line: &str) -> (b: bool)
    ensures
        b == png_fallback_match(line@),
{
    str_ends_with(line, ".png") && (str_contains(line, "Generated PNG") || str_contains(
        line,
        "Generated:",
    ) || str_contains(line, "PNG"))
}

fn scan_for_html(lines: &Vec<String>) -> (r: Option<String>)
    ensures
        r is Some <==> scan_html(lines.deep_view()) is Some,
        r matches Some(p) ==> Some(p@) == scan_html(lines.deep_view()),
{
    let ghost dv = lines.deep_view();
    let mut i: usize = lines.len();
    proof {
        assert(dv.take(lines.len() as int) =~= dv);
    }
    while i > 0
        invariant
            i <= lines@.len(),
            dv == lines.deep_view(),
            dv.len() == lines@.len(),
            forall|k: int| 0 <= k < dv.len() ==> dv[k] == lines@[k]@,
            scan_html(dv) == scan_html(dv.take(i as int)),
        decreases i,
    {
        if html_fallback_match_exec(lines[i - 1].as_str()) {
            proof {
                assert(dv.take(i as int).last() == dv[i - 1]);
            }
            return Some(String::from_str(last_token_of(lines[i - 1].as_str())));
        }
        proof {
            assert(dv.take(i as int).last() == dv[i - 1]);
            assert(dv.take(i as int).drop_last() =~= dv.take(i - 1));
        }
        i -= 1;
    }
    proof {
        assert(dv.take(0) =~= Seq::<Seq<char>>::empty());
    }
    None
}

fn scan_for_png(lines: &Vec<String>) -> (r: Option<String>)
    ensures
        r is Some <==> scan_png(lines.deep_view()) is Some,
        r matches Some(p) ==> Some(p@) == scan_png(lines.deep_view()),
{
    let ghost dv = lines.deep_view();
    let mut i: usize = lines.len();
    proof {
        assert(dv.take(lines.len() as int) =~= dv);
    }
    while i > 0
        invariant
            i <= lines@.len(),
            dv == lines.deep_view(),
            dv.len() == lines@.len(),
            forall|k: int| 0 <= k < dv.len() ==> dv[k] == lines@[k]@,
            scan_png(dv) == scan_png(dv.take(i as int)),
        decreases i,
    {
        if png_fallback_match_exec(lines[i - 1].as_str()) {
            proof {
                assert(dv.take(i as int).last() == dv[i - 1]);
            }
            return Some(String::from_str(last_token_of(lines[i - 1].as_str())));
        }
        proof {
            assert(dv.take(i as int).last() == dv[i - 1]);
            assert(dv.take(i as int).drop_last() =~= dv.take(i - 1));
        }
        i -= 1;
    }
    proof {
        assert(dv.take(0) =~= Seq::<Seq<char>>::empty());
    }
    None
}

/// The values of a sequence never step down.
pub open spec fn non_decreasing(s: Seq<u8>) -> bool {
    forall|i: int, j: int| 0 <= i <= j < s.len() ==> s[i] <= s[j]
}

proof fn lemma_push_non_decreasing(s: Seq<u8>, v: u8)
    requires
        non_decreasing(s),
        s.len() > 0 ==> s.last() <= v,
    ensures
        non_decreasing(s.push(v)),
{
    let p = s.push(v);
    assert forall|i: int, j: int| 0 <= i <= j < p.len() implies p[i] <= p[j] by {
        if j < s.len() {
            assert(s[i] <= s[j]);
        } else if i < s.len() {
            assert(s[i] <= s[s.len() - 1]);
        }
    }
}

/// The live state of one generation job between its start and its exit.
///
/// `emitted` records, in order, the value of every progress event the job has
/// produced; it exists to state the monotonicity law and costs nothing at run
/// time.
pub struct JobState {
    pub rules: Vec<MarkerRule>,
    pub export_png: bool,
    pub output_lines: Vec<String>,
    pub error_lines: Vec<String>,
    pub html_path: Option<String>,
    pub png_path: Option<String>,
    pub last_progress: u8,
    pub emitted: Ghost<Seq<u8>>,
}

impl JobState {
    /// Progress values are percentages, and the emitted record never steps
    /// down and ends at the current value.
    pub open spec fn wf(self) -> bool {
        &&& self.last_progress <= 100
        &&& non_decreasing(self.emitted@)
        &&& self.emitted@.len() > 0 ==> self.emitted@.last() == self.last_progress
        &&& forall|i: int| 0 <= i < self.rules@.len() ==> self.rules@[i].value <= 100
    }

    /// Emit one progress event, clamped so the job's progress narrative never
    /// regresses even when a heuristic cue would step backwards.
    fn push_progress(&mut self, step: String, target: u8) -> (ev: JobEvent)
        requires
            old(self).wf(),
            target <= 100,
        ensures
            final(self).wf(),
            final(self).last_progress == (if target >= old(self).last_progress {
                target
            } else {
                old(self).last_progress
            }),
            final(self).emitted@ == old(self).emitted@.push(final(self).last_progress),
            is_progress_event(ev, step@, final(self).last_progress),
            final(self).rules == old(self).rules,
            final(self).export_png == old(self).export_png,
            final(self).output_lines == old(self).output_lines,
            final(self).error_lines == old(self).error_lines,
            final(self).html_path == old(self).html_path,
            final(self).png_path == old(self).png_path,
    {
        let v = if target >= self.last_progress {
            target
        } else {
            self.last_progress
        };
        proof {
            lemma_push_non_decreasing(self.emitted@, v);
        }
        self.last_progress = v;
        self.emitted = Ghost(self.emitted@.push(v));
        JobEvent::Progress(ProgressUpdate { step, progress: v })
    }

    /// Open a job: an empty transcript, the marker table to classify with,
    /// and the opening announcement at 10 percent.
    pub fn start(rules: Vec<MarkerRule>, export_png: bool, now: &str) -> (r: (
        JobState,
        Vec<JobEvent>,
    ))
        requires
            forall|i: int| 0 <= i < rules@.len() ==> rules@[i].value <= 100,
        ensures
            r.0.wf(),
            r.0.rules == rules,
            r.0.export_png == export_png,
            r.0.output_lines@.len() == 0,
            r.0.error_lines@.len() == 0,
            r.0.html_path is None,
            r.0.png_path is None,
            r.0.last_progress == 10,
            r.0.emitted@ == Seq::empty().push(10u8),
            r.1@.len() == 2,
            is_log_event(
                r.1@[0],
                LogLevel::Info,
                LogSource::Host,
                "Starting Gantt chart generation..."@,
                now@,
            ),
            is_progress_event(r.1@[1], "Starting generation..."@, 10),
    {
        let state = JobState {
            rules,
            export_png,
            output_lines: Vec::new(),
            error_lines: Vec::new(),
            html_path: None,
            png_path: None,
            last_progress: 10,
            emitted: Ghost(Seq::empty().push(10u8)),
        };
        let mut evs: Vec<JobEvent> = Vec::new();
        evs.push(
            JobEvent::Log(
                LogEntry::new(
                    LogLevel::Info,
                    LogSource::Host,
                    String::from_str("Starting Gantt chart generation..."),
                    String::from_str(now),
                ),
            ),
        );
        evs.push(
            JobEvent::Progress(
                ProgressUpdate { step: String::from_str("Starting generation..."), progress: 10 },
            ),
        );
        (state, evs)
    }

    /// Announce that the child process is being launched, at 30 percent.
    pub fn running(&mut self, now: &str) -> (evs: Vec<JobEvent>)
        requires
            old(self).wf(),
        ensures
            final(self).wf(),
            final(self).last_progress == (if 30 >= old(self).last_progress {
                30u8
            } else {
                old(self).last_progress
            }),
            final(self).emitted@ == old(self).emitted@.push(final(self).last_progress),
            final(self).rules == old(self).rules,
            final(self).export_png == old(self).export_png,
            final(self).output_lines == old(self).output_lines,
            final(self).error_lines == old(self).error_lines,
            final(self).html_path == old(self).html_path,
            final(self).png_path == old(self).png_path,
            evs@.len() == 1,
            is_progress_event(evs@[0], "Running build script..."@, final(self).last_progress),
    {
        let ev = self.push_progress(String::from_str("Running build script..."), 30);
        let mut evs: Vec<JobEvent> = Vec::new();
        evs.push(ev);
        evs
    }

    /// Consume one standard-output line: record it in the transcript, always
    /// emit a debug log, capture an artifact path when the line names one,
    /// and emit the marker table's milestone when a cue occurs.
    pub fn on_stdout_line(&mut self, line: String, now: &str) -> (evs: Vec<JobEvent>)
        requires
            old(self).wf(),
        ensures
            final(self).wf(),
            final(self).rules == old(self).rules,
            final(self).export_png == old(self).export_png,
            final(self).output_lines@ == old(self).output_lines@.push(line),
            final(self).error_lines == old(self).error_lines,
            captures_html(line@) ==> (final(self).html_path matches Some(p) && p@ == last_token(line@)),
            !captures_html(line@) ==> final(self).html_path == old(self).html_path,
            captures_png(line@) ==> (final(self).png_path matches Some(p) && p@ == last_token(line@)),
            !captures_png(line@) ==> final(self).png_path == old(self).png_path,
            (match spec_classify(old(self).rules@, line@) {
                Some(rule) => {
                    &&& final(self).last_progress == (if rule.value >= old(self).last_progress {
                        rule.value
                    } else {
                        old(self).last_progress
                    })
                    &&& final(self).emitted@ == old(self).emitted@.push(final(self).last_progress)
                },
                None => {
                    &&& final(self).last_progress == old(self).last_progress
                    &&& final(self).emitted@ == old(self).emitted@
                },
            }),
            evs@.len() == 1 + (if captures_html(line@) || captures_png(line@) {
                1int
            } else {
                0int
            }) + (if spec_classify(old(self).rules@, line@) is Some {
                1int
            } else {
                0int
            }),
            is_log_event(evs@[0], LogLevel::Debug, LogSource::Job, line@, now@),
            captures_html(line@) ==> is_log_event(
                evs@[1],
                LogLevel::Info,
                LogSource::Job,
                "HTML generated: "@ + last_token(line@),
                now@,
            ),
            captures_png(line@) ==> is_log_event(
                evs@[1],
                LogLevel::Info,
                LogSource::Job,
                "PNG generated: "@ + last_token(line@),
                now@,
            ),
            (spec_classify(old(self).rules@, line@) matches Some(rule) ==> is_progress_event(
                evs@.last(),
                rule.label@,
                final(self).last_progress,
            )),
    {
        let mut evs: Vec<JobEvent> = Vec::new();
        evs.push(
            JobEvent::Log(
                LogEntry::new(LogLevel::Debug, LogSource::Job, line.clone(), String::from_str(now)),
            ),
        );
        if has_output_marker_exec(line.as_str()) {
            if str_ends_with(line.as_str(), ".html") {
                let tok = String::from_str(last_token_of(line.as_str()));
                let mut msg = String::from_str("HTML generated: ");
                msg.append(tok.as_str());
                self.html_path = Some(tok);
                evs.push(
                    JobEvent::Log(
                        LogEntry::new(LogLevel::Info, LogSource::Job, msg, String::from_str(now)),
                    ),
                );
            } else if str_ends_with(line.as_str(), ".png") {
                let tok = String::from_str(last_token_of(line.as_str()));
                let mut msg = String::from_str("PNG generated: ");
                msg.append(tok.as_str());
                self.png_path = Some(tok);
                evs.push(
                    JobEvent::Log(
                        LogEntry::new(LogLevel::Info, LogSource::Job, msg, String::from_str(now)),
                    ),
                );
            }
        }
        let cue = classify_line(&self.rules, line.as_str());
        match cue {
            Some((label, value)) => {
                proof {
                    lemma_classify_member(self.rules@, line@);
                }
                let ev = self.push_progress(label, value);
                evs.push(ev);
            },
            None => {},
        }
        self.output_lines.push(line);
        evs
    }

    /// Consume one standard-error line: buffer it for failure reporting and,
    /// unless it is blank, surface it as a warning.
    pub fn on_stderr_line(&mut self, line: String, now: &str) -> (evs: Vec<JobEvent>)
        requires
            old(self).wf(),
        ensures
            final(self).wf(),
            final(self).rules == old(self).rules,
            final(self).export_png == old(self).export_png,
            final(self).output_lines == old(self).output_lines,
            final(self).error_lines@ == old(self).error_lines@.push(line),
            final(self).html_path == old(self).html_path,
            final(self).png_path == old(self).png_path,
            final(self).last_progress == old(self).last_progress,
            final(self).emitted@ == old(self).emitted@,
            !all_space(line@) ==> (evs@.len() == 1 && is_log_event(
                evs@[0],
                LogLevel::Warn,
                LogSource::Job,
                line@,
                now@,
            )),
            all_space(line@) ==> evs@.len() == 0,
    {
        let mut evs: Vec<JobEvent> = Vec::new();
        if !str_is_blank(line.as_str()) {
            evs.push(
                JobEvent::Log(
                    LogEntry::new(
                        LogLevel::Warn,
                        LogSource::Job,
                        line.clone(),
                        String::from_str(now),
                    ),
                ),
            );
        }
        self.error_lines.push(line);
        evs
    }

    /// Close the job once the child has exited. Emits the terminal progress
    /// event at 100 and either assembles the result — transcript, inline or
    /// scanned artifact paths — or reports the failure detail: the error
    /// buffer when it is non-empty, else the whole output buffer.
    pub fn finish(&mut self, exit_success: bool, now: &str) -> (r: (
        Result<GenerateResult, HostError>,
        Vec<JobEvent>,
    ))
        requires
            old(self).wf(),
        ensures
            final(self).wf(),
            final(self).last_progress == 100,
            final(self).emitted@ == old(self).emitted@.push(100u8),
            final(self).output_lines == old(self).output_lines,
            final(self).error_lines == old(self).error_lines,
            r.1@.len() == 2,
            is_log_event(
                r.1@[0],
                LogLevel::Info,
                LogSource::Host,
                (if exit_success {
                    "Build process exited with status: success"@
                } else {
                    "Build process exited with status: failure"@
                }),
                now@,
            ),
            is_progress_event(
                r.1@[1],
                (if exit_success {
                    "Complete!"@
                } else {
                    "Failed"@
                }),
                100,
            ),
            exit_success ==> (r.0 matches Ok(g) && {
                &&& g.success == true
                &&& g.message@ == join_with(old(self).output_lines.deep_view(), "\n"@)
                &&& (match old(self).html_path {
                    Some(p) => g.html_path == Some(p),
                    None => (match scan_html(old(self).output_lines.deep_view()) {
                        Some(t) => g.html_path matches Some(q) && q@ == t,
                        None => g.html_path is None,
                    }),
                })
                &&& (!old(self).export_png || old(self).png_path is Some) ==> g.png_path == old(
                    self,
                ).png_path
                &&& (old(self).export_png && old(self).png_path is None) ==> (match scan_png(
                    old(self).output_lines.deep_view(),
                ) {
                    Some(t) => g.png_path matches Some(q) && q@ == t,
                    None => g.png_path is None,
                })
            }),
            !exit_success ==> (r.0 matches Err(e) && e matches HostError::ProcessExit(d) && d@ == (
            if old(self).error_lines@.len() > 0 {
                join_with(old(self).error_lines.deep_view(), "\n"@)
            } else {
                join_with(old(self).output_lines.deep_view(), "\n"@)
            })),
    {
        let mut evs: Vec<JobEvent> = Vec::new();
        evs.push(
            JobEvent::Log(
                LogEntry::new(
                    LogLevel::Info,
                    LogSource::Host,
                    (if exit_success {
                        String::from_str("Build process exited with status: success")
                    } else {
                        String::from_str("Build process exited with status: failure")
                    }),
                    String::from_str(now),
                ),
            ),
        );
        let terminal = self.push_progress(
            (if exit_success {
                String::from_str("Complete!")
            } else {
                String::from_str("Failed")
            }),
            100,
        );
        evs.push(terminal);
        if exit_success {
            let html = match &self.html_path {
                Some(p) => Some(p.clone()),
                None => scan_for_html(&self.output_lines),
            };
            let png = if self.export_png {
                match &self.png_path {
                    Some(p) => Some(p.clone()),
                    None => scan_for_png(&self.output_lines),
                }
            } else {
                match &self.png_path {
                    Some(p) => Some(p.clone()),
                    None => None,
                }
            };
            let message = join_lines(&self.output_lines, "\n");
            (Ok(GenerateResult { success: true, html_path: html, png_path: png, message }), evs)
        } else {
            let detail = if self.error_lines.len() > 0 {
                join_lines(&self.error_lines, "\n")
            } else {
                join_lines(&self.output_lines, "\n")
            };
            (Err(HostError::ProcessExit(detail)), evs)
        }
    }
}

/// The user-facing message wrapped around a failed job's diagnostic detail.
pub fn generation_failure_message(detail: &str) -> (r: String)
    ensures
        r@ == "Generation failed:\n"@ + detail@,
{
    let mut r = String::from_str("Generation failed:\n");
    r.append(detail);
    r
}

/// Law: the progress values a job emits are non-decreasing in the order they
/// were emitted. Every operation of [`JobState`] appends the values of the
/// progress events it returns to the job's emitted record, and keeps the
/// record non-decreasing, so any two values of one job's run compare this
/// way.
pub proof fn lemma_progress_monotonic(s: JobState, i: int, j: int)
    requires
        s.wf(),
        0 <= i <= j < s.emitted@.len(),
    ensures
        s.emitted@[i] <= s.emitted@[j],
{
}

} // verus!
