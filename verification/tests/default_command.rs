use standout::cli::default_command::{
    check_known_command, outcome_after_resolve, resolve_default_command, step_after_parse, step_after_probe,
    CommandNames, ParseEvent, ParseOutcome, ParseStep, UnknownDefaultCommand,
};

/// `myapp` with `list` (alias `ls`) and `add`.
fn app_subs() -> Vec<CommandNames> {
    vec![
        CommandNames { name: "list".into(), aliases: vec!["ls".into()] },
        CommandNames { name: "add".into(), aliases: Vec::new() },
    ]
}

fn resolve(
    named_a_command: bool,
    resolver: Option<Option<&str>>,
    static_default: Option<&str>,
) -> Result<Option<String>, UnknownDefaultCommand> {
    // A resolver is asked only for a naked invocation; its pick is `Some`,
    // its declining `None`.
    let resolved = if named_a_command { None } else { resolver.flatten().map(String::from) };
    resolve_default_command(named_a_command, resolved, static_default, &app_subs(), "myapp")
}

#[test]
fn static_default_applies_to_a_naked_invocation() {
    assert_eq!(resolve(false, None, Some("list")).unwrap().as_deref(), Some("list"));
}

#[test]
fn a_selected_subcommand_is_never_naked() {
    assert_eq!(resolve(true, Some(Some("list")), Some("list")).unwrap(), None);
}

#[test]
fn resolver_wins_over_the_static_default() {
    assert_eq!(resolve(false, Some(Some("add")), Some("list")).unwrap().as_deref(), Some("add"));
}

#[test]
fn declining_resolver_falls_back_to_the_static_default() {
    assert_eq!(resolve(false, Some(None), Some("list")).unwrap().as_deref(), Some("list"));
}

#[test]
fn declining_resolver_without_a_static_default_resolves_to_none() {
    assert_eq!(resolve(false, Some(None), None).unwrap(), None);
}

#[test]
fn no_default_configured_resolves_to_none() {
    assert_eq!(resolve(false, None, None).unwrap(), None);
}

#[test]
fn an_alias_is_a_known_command() {
    assert_eq!(resolve(false, Some(Some("ls")), None).unwrap().as_deref(), Some("ls"));
}

#[test]
fn unknown_resolver_output_is_a_typed_error() {
    let error = resolve(false, Some(Some("nope")), None).expect_err("an unknown command must not resolve");
    assert_eq!(error.name, "nope");
    assert_eq!(error.app, "myapp");
    assert!(error.known.contains(&"list".to_string()));
}

#[test]
fn an_unknown_resolver_output_does_not_fall_back_to_the_static_default() {
    assert!(resolve(false, Some(Some("nope")), Some("list")).is_err());
}

#[test]
fn an_unknown_default_names_the_command_the_application_and_the_known_ones() {
    let error = check_known_command(&app_subs(), "myapp", "nope".into()).unwrap_err();
    assert_eq!(
        error.message(),
        "default command resolver returned `nope`, which is not a command of `myapp`. Known commands: [list, add]. Return `None` to decline instead of naming an unknown command."
    );
    assert_eq!(check_known_command(&app_subs(), "myapp", "add".into()).unwrap(), "add");
}

#[test]
fn a_named_command_keeps_its_parse_and_a_naked_line_resolves() {
    assert_eq!(step_after_parse(ParseEvent::Parsed(true), true), ParseStep::Keep);
    assert_eq!(step_after_parse(ParseEvent::Parsed(false), false), ParseStep::Resolve);
}

#[test]
fn a_usage_error_is_probed_only_with_a_default_configured() {
    assert_eq!(step_after_parse(ParseEvent::Refused(true), true), ParseStep::Probe);
    assert_eq!(step_after_parse(ParseEvent::Refused(true), false), ParseStep::Refuse);
    assert_eq!(step_after_parse(ParseEvent::Refused(false), true), ParseStep::Refuse);
    assert_eq!(step_after_probe(ParseEvent::Parsed(false)), ParseStep::Resolve);
    assert_eq!(step_after_probe(ParseEvent::Parsed(true)), ParseStep::Refuse);
    assert_eq!(step_after_probe(ParseEvent::Refused(true)), ParseStep::Refuse);
}

#[test]
fn a_resolved_default_is_inserted_after_the_program_name() {
    let args = vec!["myapp".to_string(), "--verbose".to_string()];
    match outcome_after_resolve(true, Ok(Some("list".into())), args) {
        ParseOutcome::Reparse(line) => assert_eq!(line, ["myapp", "list", "--verbose"]),
        other => panic!("expected a re-parse, got {other:?}"),
    }
    match outcome_after_resolve(false, Ok(Some("list".into())), Vec::new()) {
        ParseOutcome::Reparse(line) => assert_eq!(line, ["list"]),
        other => panic!("expected a re-parse, got {other:?}"),
    }
}

#[test]
fn no_default_keeps_the_parse_or_its_refusal() {
    assert!(matches!(outcome_after_resolve(true, Ok(None), Vec::new()), ParseOutcome::Keep));
    assert!(matches!(outcome_after_resolve(false, Ok(None), Vec::new()), ParseOutcome::Refuse));
    let unknown = UnknownDefaultCommand { name: "nope".into(), known: vec!["list".into()], app: "myapp".into() };
    match outcome_after_resolve(true, Err(unknown), Vec::new()) {
        ParseOutcome::UnknownDefault(e) => assert_eq!(e.name, "nope"),
        other => panic!("expected the unknown default, got {other:?}"),
    }
}
