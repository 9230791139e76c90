use standout::cli::pager::{pager_variables, PagerOutcome};
use standout::cli::run::{
    delivered_by_pager, file_destination, resolve_color_policy, resolve_representation, resolve_run, OutputTarget,
    RunRequest,
};
use standout::cli::{ColorPolicy, Representation, TermColor, TermOutput, TermSettings};

fn terminal() -> OutputTarget {
    OutputTarget { stdout_is_terminal: true, stdout_color_capability: true }
}

fn request(pageable: bool, no_pager: bool) -> RunRequest {
    RunRequest {
        typed_output: None,
        typed_color: None,
        writes_to_a_file: false,
        no_pager,
        pageable,
        emits_events: false,
    }
}

/// The pager `myapp` resolves to when the environment holds `vars`.
fn pager(req: RunRequest, vars: &[(&str, &str)]) -> Option<String> {
    let values = pager_variables(Some("myapp"))
        .iter()
        .map(|name| vars.iter().find(|(key, _)| key == name).map(|(_, value)| value.to_string()))
        .collect();
    resolve_run(req, None, ColorPolicy::Auto, Representation::Human, terminal(), false, values)
        .pager
        .map(|pager| pager.command().to_string())
}

#[test]
fn resolve_run_decides_paging_for_every_entry_point() {
    let env = [("MYAPP_PAGER", "sed -n 1p")];
    // `list` is pageable, `add` is not.
    assert_eq!(pager(request(true, false), &env), Some("sed -n 1p".to_string()));
    assert_eq!(pager(request(true, true), &env), None);
    assert_eq!(pager(request(false, false), &env), None);
    assert_eq!(pager(request(true, false), &[]), None);
}

#[test]
fn a_named_file_structured_output_or_events_page_nothing() {
    let env = [("PAGER", "less")];
    let mut to_file = request(true, false);
    to_file.writes_to_a_file = true;
    assert_eq!(pager(to_file, &env), None);
    let mut json = request(true, false);
    json.typed_output = Some(Representation::Json);
    assert_eq!(pager(json, &env), None);
    let mut events = request(true, false);
    events.emits_events = true;
    assert_eq!(pager(events, &env), None);
    assert_eq!(pager(request(true, false), &env), Some("less".to_string()));
}

#[test]
fn a_named_file_is_no_terminal() {
    let target = file_destination(terminal(), true);
    assert!(!target.stdout_is_terminal && !target.stdout_color_capability);
    assert_eq!(file_destination(terminal(), false), terminal());
}

#[test]
fn the_color_policy_follows_its_precedence() {
    let term = Some(TermSettings { output: None, color: Some(TermColor::Always) });
    assert_eq!(resolve_color_policy(Some(ColorPolicy::Never), ColorPolicy::Always, term, false), ColorPolicy::Never);
    assert_eq!(resolve_color_policy(None, ColorPolicy::Never, term, false), ColorPolicy::Never);
    assert_eq!(resolve_color_policy(None, ColorPolicy::Auto, term, false), ColorPolicy::Always);
    assert_eq!(resolve_color_policy(None, ColorPolicy::Auto, term, true), ColorPolicy::Never);
    assert_eq!(resolve_color_policy(Some(ColorPolicy::Always), ColorPolicy::Auto, term, true), ColorPolicy::Always);
    assert_eq!(resolve_color_policy(None, ColorPolicy::Auto, None, true), ColorPolicy::Auto);
}

#[test]
fn the_representation_follows_its_precedence() {
    let term = Some(TermSettings { output: Some(TermOutput::Yaml), color: None });
    assert_eq!(resolve_representation(Some(Representation::Csv), term, Representation::Human), Representation::Csv);
    assert_eq!(resolve_representation(None, term, Representation::Human), Representation::Yaml);
    assert_eq!(resolve_representation(None, None, Representation::TermDebug), Representation::TermDebug);
}

#[test]
fn a_pager_that_read_or_whose_reader_left_took_the_output() {
    assert!(delivered_by_pager(PagerOutcome::Paged));
    assert!(delivered_by_pager(PagerOutcome::ReaderLeft));
    assert!(!delivered_by_pager(PagerOutcome::CouldNotStart));
}
