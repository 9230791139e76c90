use standout::cli::emit::{
    carries_diagnostic_document, carries_warning_entries, emit_run_result, emit_warning_entries,
    warning_entries_written, warnings_delivered_on_stdout, Channel, EmitAction,
};
use standout::cli::handler::{
    ArtifactDestination, ArtifactReceipt, ArtifactRun, DispatchResult, HookPhase, OutputKind, RunError,
    RunErrorKind, RunOutput,
};
use standout::cli::Representation;
use standout::io::{IoErrorKind, IoFailure};

/// A stream as a test sees it: a buffer, or one that fails in a set way.
enum Sink {
    /// Takes every byte and flushes.
    Buffer(Vec<u8>),
    /// Every write fails with a broken pipe ("closed").
    Failing,
    /// Every write fails with another error ("disk full").
    Closed,
    /// Takes every byte; the flush fails with a broken pipe ("flush closed").
    FlushFailing(Vec<u8>),
}

impl Sink {
    fn buffer() -> Sink {
        Sink::Buffer(Vec::new())
    }

    /// `write_all` and then `flush`, as a writer of this kind answers them.
    fn write_and_flush(&mut self, bytes: &[u8]) -> Result<(), IoFailure> {
        match self {
            Sink::Buffer(b) => {
                b.extend_from_slice(bytes);
                Ok(())
            }
            Sink::Failing => {
                if bytes.is_empty() {
                    Ok(())
                } else {
                    Err(IoFailure::new(IoErrorKind::BrokenPipe, "closed".to_string()))
                }
            }
            Sink::Closed => {
                if bytes.is_empty() {
                    Ok(())
                } else {
                    Err(IoFailure::new(IoErrorKind::Other, "disk full".to_string()))
                }
            }
            Sink::FlushFailing(b) => {
                b.extend_from_slice(bytes);
                Err(IoFailure::new(IoErrorKind::BrokenPipe, "flush closed".to_string()))
            }
        }
    }

    fn text(&self) -> String {
        match self {
            Sink::Buffer(b) | Sink::FlushFailing(b) => String::from_utf8(b.clone()).unwrap(),
            _ => String::new(),
        }
    }

    fn bytes(&self) -> Vec<u8> {
        match self {
            Sink::Buffer(b) | Sink::FlushFailing(b) => b.clone(),
            _ => Vec::new(),
        }
    }
}

/// Run an emission to its end against two sinks; a failed write of the
/// final-write report to stderr is ignored, as the emission itself does.
fn drive(
    result: DispatchResult,
    mode: Representation,
    document: Option<Vec<u8>>,
    stdout: &mut Sink,
    stderr: &mut Sink,
) -> Result<bool, RunError> {
    let (mut emission, mut action) = emit_run_result(result, mode, document);
    loop {
        match action {
            EmitAction::Finish(done) => return done,
            EmitAction::Write { channel, bytes } => {
                let status = match channel {
                    Channel::Stdout => stdout.write_and_flush(&bytes),
                    Channel::Stderr => stderr.write_and_flush(&bytes),
                };
                let (next, next_action) = emission.resume(status);
                emission = next;
                action = next_action;
            }
        }
    }
}

fn emit(result: DispatchResult, mode: Representation) -> (Result<bool, RunError>, String, String) {
    let mut stdout = Sink::buffer();
    let mut stderr = Sink::buffer();
    let emitted = drive(result, mode, None, &mut stdout, &mut stderr);
    (emitted, stdout.text(), stderr.text())
}

const BOOM_DOCUMENT: &str = "{\"type\":\"diagnostic\",\"schema_version\":1,\"severity\":\"error\",\"kind\":\"hook-pre-dispatch\",\"summary\":\"boom\",\"detail\":\"\"}\n";

#[test]
fn final_emission_routes_success_and_diagnostics_to_distinct_streams() {
    let (handled, stdout, stderr) =
        emit(DispatchResult::Handled(RunOutput::command("hello")), Representation::Human);
    assert!(handled.unwrap());
    assert_eq!(stdout, "hello\n");
    assert!(stderr.is_empty());

    let (handled, stdout, stderr) = emit(
        DispatchResult::Error(RunError::new("bad argv", RunErrorKind::ClapUsage)),
        Representation::Human,
    );
    assert!(handled.unwrap());
    assert!(stdout.is_empty());
    assert_eq!(stderr, "bad argv\n");
}

#[test]
fn every_human_mode_keeps_prose_on_stderr() {
    for mode in [Representation::Human, Representation::Human, Representation::Human, Representation::TermDebug] {
        let (handled, stdout, stderr) =
            emit(DispatchResult::Error(RunError::new("Error: boom", RunErrorKind::Handler)), mode);
        assert!(handled.unwrap(), "{mode:?}");
        assert!(stdout.is_empty(), "{mode:?}: {stdout}");
        assert_eq!(stderr, "Error: boom\n", "{mode:?}");
    }
}

#[test]
fn a_structured_mode_puts_the_diagnostic_on_stdout_and_nothing_on_stderr() {
    let error = RunError::new("Error: boom", RunErrorKind::Hook(HookPhase::PreDispatch));
    let mut stdout = Sink::buffer();
    let mut stderr = Sink::buffer();
    let handled = drive(
        DispatchResult::Error(error),
        Representation::Json,
        Some(BOOM_DOCUMENT.as_bytes().to_vec()),
        &mut stdout,
        &mut stderr,
    );
    assert!(handled.unwrap());
    assert!(stderr.text().is_empty(), "{}", stderr.text());
    assert_eq!(stdout.text(), BOOM_DOCUMENT);
    assert!(stdout.text().ends_with('\n'));
}

#[test]
fn a_structured_failure_does_not_report_the_flush_of_a_stderr_it_never_wrote() {
    let mut stdout = Sink::buffer();
    let mut stderr = Sink::FlushFailing(Vec::new());
    let emitted = drive(
        DispatchResult::Error(RunError::new("Error: boom", RunErrorKind::Hook(HookPhase::PreDispatch))),
        Representation::Json,
        Some(BOOM_DOCUMENT.as_bytes().to_vec()),
        &mut stdout,
        &mut stderr,
    );
    assert!(emitted.unwrap(), "the document reached stdout, so the run has no final-write failure to report");
    assert!(stderr.bytes().is_empty(), "{:?}", stderr.bytes());
    assert_eq!(stdout.text(), BOOM_DOCUMENT);
}

#[test]
fn an_owner_declared_failure_keeps_its_stderr_bytes_and_adds_the_document() {
    let error = RunError::new("app: refused\n", RunErrorKind::App);
    let document = "type: diagnostic\nschema_version: 1\nseverity: error\nkind: app\nsummary: 'app: refused'\ndetail: |\n  app: refused\n";
    let mut stdout = Sink::buffer();
    let mut stderr = Sink::buffer();
    let handled = drive(
        DispatchResult::Error(error),
        Representation::Yaml,
        Some(document.as_bytes().to_vec()),
        &mut stdout,
        &mut stderr,
    );
    assert!(handled.unwrap());
    assert_eq!(stderr.text(), "app: refused\n");
    assert_eq!(stdout.text(), document);
}

#[test]
fn an_owner_declared_failure_under_a_human_mode_writes_only_its_own_bytes() {
    let error = RunError::new("tool: exit 3\n", RunErrorKind::External);
    let mut stdout = Sink::buffer();
    let mut stderr = Sink::buffer();
    let handled = drive(
        DispatchResult::Error(error),
        Representation::Human,
        Some(b"unused".to_vec()),
        &mut stdout,
        &mut stderr,
    );
    assert!(handled.unwrap());
    assert_eq!(stderr.text(), "tool: exit 3\n");
    assert!(stdout.text().is_empty());
}

#[test]
fn under_ndjson_the_failure_is_one_compact_line_on_stdout() {
    let line = "{\"type\":\"diagnostic\",\"schema_version\":1,\"severity\":\"error\",\"kind\":\"handler\",\"summary\":\"line 2 does not parse\",\"detail\":\"expected `resource <name> <state>`\",\"range\":{\"filename\":\"main.tfl\",\"start\":{\"line\":2,\"column\":1}}}\n";
    let error = RunError::new("Error: boom", RunErrorKind::Handler);
    let mut stdout = Sink::buffer();
    let mut stderr = Sink::buffer();
    let handled = drive(
        DispatchResult::Error(error),
        Representation::Ndjson,
        Some(line.as_bytes().to_vec()),
        &mut stdout,
        &mut stderr,
    );
    assert!(handled.unwrap());
    assert!(stderr.text().is_empty(), "{}", stderr.text());
    assert_eq!(stdout.text(), line);
    assert!(carries_diagnostic_document(Representation::Ndjson));
}

#[test]
fn warnings_are_stdout_entries_under_ndjson_and_nothing_elsewhere() {
    let first = "{\"type\":\"diagnostic\",\"schema_version\":1,\"severity\":\"warning\",\"kind\":\"framework\",\"summary\":\"first\",\"detail\":\"\"}\n";
    let second = "{\"type\":\"diagnostic\",\"schema_version\":1,\"severity\":\"warning\",\"kind\":\"framework\",\"summary\":\"second\",\"detail\":\"\"}\n";
    let entries = || vec![first.as_bytes().to_vec(), second.as_bytes().to_vec()];
    let handled = DispatchResult::Handled(RunOutput::command("{}"));
    let stdout = emit_warning_entries(&handled, entries(), Representation::Ndjson).unwrap();
    assert_eq!(String::from_utf8(stdout).unwrap(), format!("{first}{second}"));
    assert!(carries_warning_entries(&handled, Representation::Ndjson));
    for mode in [Representation::Human, Representation::Json, Representation::Yaml, Representation::Csv] {
        assert!(emit_warning_entries(&handled, entries(), mode).is_none(), "{mode:?}");
        assert!(!carries_warning_entries(&handled, mode), "{mode:?}");
    }
    let failure = warning_entries_written(Sink::Closed.write_and_flush(first.as_bytes())).unwrap_err();
    assert_eq!(failure.kind(), RunErrorKind::FinalWrite(OutputKind::Text));
    warning_entries_written(Sink::Failing.write_and_flush(first.as_bytes())).unwrap();
}

#[test]
fn a_no_match_handoff_writes_no_warning_entries_under_ndjson() {
    let entries = vec![b"startup\n".to_vec()];
    let handoff = DispatchResult::NoMatch;
    assert!(!carries_warning_entries(&handoff, Representation::Ndjson));
    assert!(emit_warning_entries(&handoff, entries, Representation::Ndjson).is_none());
}

#[test]
fn a_no_match_handoff_answers_false_and_writes_nothing() {
    let (handled, stdout, stderr) = emit(DispatchResult::NoMatch, Representation::Json);
    assert!(!handled.unwrap());
    assert!(stdout.is_empty());
    assert!(stderr.is_empty());
}

#[test]
fn warnings_inside_an_incremental_array_are_already_on_stdout() {
    let mut output = RunOutput::command("[]");
    output.warnings_included = true;
    let handled = DispatchResult::Handled(output);
    assert!(warnings_delivered_on_stdout(&handled, Representation::Json));
    assert!(!warnings_delivered_on_stdout(&DispatchResult::Silent, Representation::Json));
    assert!(warnings_delivered_on_stdout(&DispatchResult::Silent, Representation::Ndjson));
}

#[test]
fn a_failed_document_write_is_a_final_write_failure() {
    let mut stdout = Sink::Closed;
    let mut stderr = Sink::buffer();
    let failure = drive(
        DispatchResult::Error(RunError::new("Error: boom", RunErrorKind::Handler)),
        Representation::Json,
        Some(BOOM_DOCUMENT.as_bytes().to_vec()),
        &mut stdout,
        &mut stderr,
    )
    .unwrap_err();
    assert_eq!(failure.kind(), RunErrorKind::FinalWrite(OutputKind::Text));
    assert!(stderr.text().contains("Error writing stdout"));
}

#[test]
fn a_document_broken_pipe_keeps_the_failure_it_was_reporting() {
    let mut stdout = Sink::Failing;
    let mut stderr = Sink::buffer();
    let handled = drive(
        DispatchResult::Error(RunError::new("bad argv", RunErrorKind::ClapUsage)),
        Representation::Json,
        Some(BOOM_DOCUMENT.as_bytes().to_vec()),
        &mut stdout,
        &mut stderr,
    );
    assert!(handled.unwrap());
    assert!(stderr.text().is_empty());
}

#[test]
fn final_text_broken_pipe_is_successful_early_termination() {
    let mut stdout = Sink::Failing;
    let mut stderr = Sink::buffer();
    let handled = drive(
        DispatchResult::Handled(RunOutput::command("hello")),
        Representation::Human,
        None,
        &mut stdout,
        &mut stderr,
    );
    assert!(handled.unwrap());
    assert!(stderr.text().is_empty());
}

#[test]
fn final_binary_write_failures_keep_payload_kind() {
    let mut stdout = Sink::Failing;
    let mut stderr = Sink::buffer();
    let binary_failure = drive(
        DispatchResult::Binary(vec![0, 1], "data.bin".into()),
        Representation::Human,
        None,
        &mut stdout,
        &mut stderr,
    )
    .unwrap_err();
    assert_eq!(binary_failure.kind(), RunErrorKind::FinalWrite(OutputKind::Binary));
    assert_eq!(stderr.text(), "Error writing binary stdout: closed\n");
}

#[test]
fn final_text_broken_pipe_flush_is_successful_early_termination() {
    let mut text_stdout = Sink::FlushFailing(Vec::new());
    let handled = drive(
        DispatchResult::Handled(RunOutput::command("hello")),
        Representation::Human,
        None,
        &mut text_stdout,
        &mut Sink::buffer(),
    );
    assert_eq!(text_stdout.bytes(), b"hello\n");
    assert!(handled.unwrap());
}

#[test]
fn final_binary_flush_failures_keep_payload_kind() {
    let mut binary_stdout = Sink::FlushFailing(Vec::new());
    let binary_failure = drive(
        DispatchResult::Binary(vec![0, 1], "data.bin".into()),
        Representation::Human,
        None,
        &mut binary_stdout,
        &mut Sink::buffer(),
    )
    .unwrap_err();
    assert_eq!(binary_stdout.bytes(), [0, 1]);
    assert_eq!(binary_failure.kind(), RunErrorKind::FinalWrite(OutputKind::Binary));
}

#[test]
fn artifact_report_write_failures_keep_artifact_kind_on_both_channels() {
    let file_run = ArtifactRun::new(
        vec![0, 1],
        None,
        ArtifactReceipt::new(ArtifactDestination::File("out.bin".into()), 2),
        Some("wrote out.bin".into()),
    );
    let file_report_failure = drive(
        DispatchResult::Artifact(file_run),
        Representation::Human,
        None,
        &mut Sink::Failing,
        &mut Sink::buffer(),
    )
    .unwrap_err();
    assert_eq!(file_report_failure.kind(), RunErrorKind::FinalWrite(OutputKind::Artifact));

    let stdout_run = ArtifactRun::new(
        vec![0, 1],
        None,
        ArtifactReceipt::new(ArtifactDestination::Stdout, 2),
        Some("wrote stdout".into()),
    );
    let mut stdout = Sink::buffer();
    let stdout_report_failure = drive(
        DispatchResult::Artifact(stdout_run),
        Representation::Human,
        None,
        &mut stdout,
        &mut Sink::Failing,
    )
    .unwrap_err();
    assert_eq!(stdout.bytes(), [0, 1]);
    assert_eq!(stdout_report_failure.kind(), RunErrorKind::FinalWrite(OutputKind::Artifact));
}

#[test]
fn an_artifact_on_stdout_reports_on_stderr_and_a_file_artifact_on_stdout() {
    let stdout_run = ArtifactRun::new(
        vec![7],
        None,
        ArtifactReceipt::new(ArtifactDestination::Stdout, 1),
        Some("wrote stdout".into()),
    );
    let mut stdout = Sink::buffer();
    let mut stderr = Sink::buffer();
    assert!(drive(DispatchResult::Artifact(stdout_run), Representation::Human, None, &mut stdout, &mut stderr).unwrap());
    assert_eq!(stdout.bytes(), [7]);
    assert_eq!(stderr.text(), "wrote stdout\n");

    let file_run = ArtifactRun::new(
        vec![7],
        None,
        ArtifactReceipt::new(ArtifactDestination::File("out.bin".into()), 1),
        Some("wrote out.bin".into()),
    );
    let (handled, stdout, stderr) = emit(DispatchResult::Artifact(file_run), Representation::Human);
    assert!(handled.unwrap());
    assert_eq!(stdout, "wrote out.bin\n");
    assert!(stderr.is_empty());
}

#[test]
fn every_final_write_failure_carries_the_io_error_a_caller_can_inspect() {
    let stdout_document = drive(
        DispatchResult::Handled(RunOutput::command("hello")),
        Representation::Human,
        None,
        &mut Sink::Closed,
        &mut Sink::buffer(),
    )
    .unwrap_err();
    assert_eq!(stdout_document.source().unwrap().kind(), IoErrorKind::Other);

    let binary = drive(
        DispatchResult::Binary(vec![0, 1], "data.bin".into()),
        Representation::Human,
        None,
        &mut Sink::Failing,
        &mut Sink::buffer(),
    )
    .unwrap_err();
    assert_eq!(
        binary.source().unwrap().kind(),
        IoErrorKind::BrokenPipe,
        "the kind the write failed with survives, not just its prose"
    );

    let stderr = drive(
        DispatchResult::Error(RunError::new("Error: boom", RunErrorKind::Handler)),
        Representation::Human,
        None,
        &mut Sink::buffer(),
        &mut Sink::Closed,
    )
    .unwrap_err();
    assert_eq!(stderr.kind(), RunErrorKind::FinalWrite(OutputKind::Text));
    assert_eq!(stderr.source().unwrap().kind(), IoErrorKind::Other);

    let artifact_stdout = drive(
        DispatchResult::Artifact(ArtifactRun::new(
            vec![0, 1],
            None,
            ArtifactReceipt::new(ArtifactDestination::Stdout, 2),
            None,
        )),
        Representation::Human,
        None,
        &mut Sink::Closed,
        &mut Sink::buffer(),
    )
    .unwrap_err();
    assert_eq!(artifact_stdout.source().unwrap().kind(), IoErrorKind::Other);

    let artifact_report = drive(
        DispatchResult::Artifact(ArtifactRun::new(
            vec![0, 1],
            None,
            ArtifactReceipt::new(ArtifactDestination::File("out.bin".into()), 2),
            Some("wrote out.bin".into()),
        )),
        Representation::Human,
        None,
        &mut Sink::Closed,
        &mut Sink::buffer(),
    )
    .unwrap_err();
    assert_eq!(artifact_report.source().unwrap().kind(), IoErrorKind::Other);

    let warning_entries = warning_entries_written(Sink::Closed.write_and_flush(b"careful\n")).unwrap_err();
    assert_eq!(warning_entries.source().unwrap().kind(), IoErrorKind::Other);
}

#[test]
fn silent_and_empty_output_write_nothing() {
    let (handled, stdout, stderr) = emit(DispatchResult::Silent, Representation::Human);
    assert!(handled.unwrap());
    assert!(stdout.is_empty() && stderr.is_empty());
    let (handled, stdout, stderr) = emit(DispatchResult::Handled(RunOutput::command("")), Representation::Human);
    assert!(handled.unwrap());
    assert!(stdout.is_empty() && stderr.is_empty());
}
