use standout::cli::dispatch::ParseFailureKind;
use standout::cli::handler::{DispatchResult, HookPhase, OutputKind, RunError, RunErrorKind};
use standout::cli::presentation::{
    declared_status_check, delivery, dispatch_step, hook_failure, present_run_output, process_status, refusal_error,
    run_after, Delivery, DispatchStep, OutputShape, PayloadRefusal, Presentation, RunEvent, RunNext,
};
use standout::setup::SetupError;
use standout::cli::Representation;

fn strings(v: &[&str]) -> Vec<String> {
    v.iter().map(|s| s.to_string()).collect()
}

#[test]
fn a_registered_path_dispatches() {
    let registered = strings(&["list", "db.migrate"]);
    assert!(matches!(dispatch_step(&registered, &strings(&["db", "migrate"]), false, Ok(())), DispatchStep::Dispatch));
    assert!(matches!(dispatch_step(&registered, &strings(&["list"]), true, Ok(())), DispatchStep::Dispatch));
}

#[test]
fn an_unregistered_path_is_no_match() {
    let registered = strings(&["list", "db.migrate"]);
    assert!(matches!(dispatch_step(&registered, &strings(&["db"]), false, Ok(())), DispatchStep::NoMatch));
    assert!(matches!(dispatch_step(&registered, &strings(&["migrate"]), false, Ok(())), DispatchStep::NoMatch));
    assert!(matches!(dispatch_step(&registered, &strings(&[]), false, Ok(())), DispatchStep::NoMatch));
}

#[test]
fn the_config_path_runs_the_installed_config_command() {
    let registered = strings(&["config"]);
    assert!(matches!(dispatch_step(&registered, &strings(&["config", "get"]), true, Ok(())), DispatchStep::Config));
    assert!(matches!(dispatch_step(&registered, &strings(&["config"]), false, Ok(())), DispatchStep::Dispatch));
    assert!(matches!(dispatch_step(&strings(&[]), &strings(&["config"]), false, Ok(())), DispatchStep::NoMatch));
}

#[test]
fn a_failed_pre_dispatch_hook_fails_the_run() {
    let registered = strings(&["list"]);
    match dispatch_step(&registered, &strings(&["list"]), false, Err("blocked by hook".to_string())) {
        DispatchStep::Fail(e) => {
            assert_eq!(e.as_str(), "Error: hook error (pre-dispatch): blocked by hook");
            assert_eq!(e.kind(), RunErrorKind::Hook(HookPhase::PreDispatch));
        }
        _ => panic!("expected a failure"),
    }
    assert!(matches!(
        dispatch_step(&registered, &strings(&["other"]), false, Err("blocked".to_string())),
        DispatchStep::NoMatch
    ));
}

#[test]
fn hook_failures_name_their_phase() {
    assert_eq!(
        hook_failure(HookPhase::PostOutput, "post-processing failed").as_str(),
        "Error: hook error (post-output): post-processing failed"
    );
    assert_eq!(
        hook_failure(HookPhase::PostDispatch, "no items to display").as_str(),
        "Error: hook error (post-dispatch): no items to display"
    );
}

#[test]
fn a_payload_under_the_line_stream_is_refused() {
    for kind in [OutputShape::Binary, OutputShape::Artifact] {
        assert_eq!(
            present_run_output(kind, 0, Representation::Ndjson, false, false),
            Presentation::Refuse(PayloadRefusal::UnderStream)
        );
    }
    assert_eq!(present_run_output(OutputShape::Text, 0, Representation::Ndjson, false, false), Presentation::AnswerText(0));
}

#[test]
fn a_payload_of_an_event_emitting_command_is_refused() {
    assert_eq!(
        present_run_output(OutputShape::Binary, 0, Representation::Ndjson, true, false),
        Presentation::Refuse(PayloadRefusal::FromPostOutputHook)
    );
}

#[test]
fn a_status_on_a_payload_without_a_carrier_is_refused() {
    assert_eq!(
        present_run_output(OutputShape::Artifact, 2, Representation::Human, false, false),
        Presentation::Refuse(PayloadRefusal::StatusWithoutCarrier(2, OutputKind::Artifact))
    );
    assert_eq!(
        present_run_output(OutputShape::Binary, 2, Representation::Json, false, false),
        Presentation::Refuse(PayloadRefusal::StatusWithoutCarrier(2, OutputKind::Binary))
    );
    assert_eq!(present_run_output(OutputShape::Artifact, 0, Representation::Human, false, true), Presentation::CompleteArtifact);
    assert_eq!(present_run_output(OutputShape::Binary, 0, Representation::Human, false, false), Presentation::AnswerBinary);
}

#[test]
fn output_with_a_file_is_written_then_answered_empty() {
    assert_eq!(
        present_run_output(OutputShape::Text, 3, Representation::Json, false, true),
        Presentation::WriteToFile(OutputKind::Text, 3)
    );
    assert_eq!(
        present_run_output(OutputShape::Binary, 2, Representation::Human, false, true),
        Presentation::WriteToFile(OutputKind::Binary, 2)
    );
    assert_eq!(present_run_output(OutputShape::Silent, 4, Representation::Human, false, true), Presentation::AnswerEmpty(4));
    assert_eq!(present_run_output(OutputShape::Text, 1, Representation::Human, false, false), Presentation::AnswerText(1));
}

#[test]
fn a_declared_status_is_refused_on_a_payload_only() {
    assert_eq!(
        declared_status_check(Some(0), OutputShape::Binary),
        Err(PayloadRefusal::StatusWithoutCarrier(0, OutputKind::Binary))
    );
    assert_eq!(
        declared_status_check(Some(2), OutputShape::Artifact),
        Err(PayloadRefusal::StatusWithoutCarrier(2, OutputKind::Artifact))
    );
    assert_eq!(declared_status_check(Some(2), OutputShape::Text), Ok(()));
    assert_eq!(declared_status_check(None, OutputShape::Binary), Ok(()));
}

#[test]
fn a_refused_status_says_which_status_and_output() {
    let binary = refusal_error(PayloadRefusal::StatusWithoutCarrier(2, OutputKind::Binary));
    assert!(binary.as_str().contains("exit status 2 was declared on binary output"));
    let artifact = refusal_error(PayloadRefusal::StatusWithoutCarrier(0, OutputKind::Artifact));
    assert!(artifact.as_str().contains("exit status 0 was declared on artifact output"));
    assert_eq!(binary.kind(), RunErrorKind::Render);
}

#[test]
fn an_emitted_result_goes_to_the_first_delivery_that_applies() {
    assert_eq!(delivery(true, true, Representation::Ndjson), Delivery::HelpToFile);
    assert_eq!(delivery(false, true, Representation::Ndjson), Delivery::Paged);
    assert_eq!(delivery(false, false, Representation::Ndjson), Delivery::Stream);
    assert_eq!(delivery(false, false, Representation::Json), Delivery::Stdout);
}

#[test]
fn a_failed_final_write_decides_the_status() {
    assert_eq!(process_status(Some(1), Some(3)), 1);
    assert_eq!(process_status(None, Some(3)), 3);
    assert_eq!(process_status(None, None), 0);
}

#[test]
fn a_run_goes_through_its_stages_in_order() {
    assert!(matches!(run_after(RunEvent::DefinitionChecked(Ok(()))), RunNext::CheckHelpWord));
    assert!(matches!(run_after(RunEvent::HelpWordChecked(None)), RunNext::Parse));
    assert!(matches!(run_after(RunEvent::Parsed(None)), RunNext::ResolveConfig));
    assert!(matches!(run_after(RunEvent::ConfigResolved(None)), RunNext::Dispatch));
}

#[test]
fn a_failed_definition_check_is_a_usage_error() {
    match run_after(RunEvent::DefinitionChecked(Err(SetupError::Config("bad".to_string())))) {
        RunNext::Finish(DispatchResult::Error(e)) => {
            assert_eq!(e.kind(), RunErrorKind::ClapUsage);
            assert_eq!(e.as_str(), "configuration error: bad");
        }
        _ => panic!("expected a usage error"),
    }
}

#[test]
fn a_parse_failure_ends_the_run_as_its_kind_says() {
    match run_after(RunEvent::Parsed(Some((ParseFailureKind::UnknownDefault, "no such command".to_string())))) {
        RunNext::Finish(DispatchResult::Error(e)) => {
            assert_eq!(e.kind(), RunErrorKind::DefaultCommand);
            assert_eq!(e.as_str(), "no such command");
        }
        _ => panic!("expected a default-command error"),
    }
    match run_after(RunEvent::ConfigResolved(Some(RunError::new("Config error", RunErrorKind::Config)))) {
        RunNext::Finish(DispatchResult::Error(e)) => assert_eq!(e.kind(), RunErrorKind::Config),
        _ => panic!("expected a config error"),
    }
}
