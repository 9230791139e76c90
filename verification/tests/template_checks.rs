use standout::cli::template_checks::{check_command_template, validate_command_templates, CommandTemplate, TemplateLookup};
use standout::cli::templates::{TemplateAbsence, TemplateCatalog, TemplateRef};
use standout::setup::SetupError;

fn command(path: &str, template: TemplateRef) -> CommandTemplate {
    CommandTemplate {
        path: path.into(),
        template,
        emits_events: false,
        lookup: TemplateLookup::Found,
        event_lookup: TemplateLookup::Found,
    }
}

fn catalog() -> TemplateCatalog {
    TemplateCatalog { has_application_templates: true, names: vec!["list".into(), "show".into()] }
}

fn template_message(r: Result<(), SetupError>) -> String {
    match r {
        Err(SetupError::Template(m)) => m,
        other => panic!("expected a template error, got {other:?}"),
    }
}

#[test]
fn commands_without_a_named_template_pass() {
    let inline = command("a", TemplateRef::Inline("{{ x }}".into()));
    let absent = command("b", TemplateRef::Absent(TemplateAbsence::Silent));
    assert!(check_command_template(&inline, None).is_ok());
    assert!(check_command_template(&absent, None).is_ok());
}

#[test]
fn a_named_template_without_a_registry_is_missing() {
    let c = command("list", TemplateRef::Named("list".into()));
    let m = template_message(check_command_template(&c, None));
    assert!(m.starts_with("command `list` references template `list`, but no application templates are configured"));
}

#[test]
fn a_registered_template_passes_and_an_unregistered_one_is_named_with_suggestions() {
    let c = command("list", TemplateRef::Named("list".into()));
    assert!(check_command_template(&c, Some(&catalog())).is_ok());
    let mut missing = command("lst", TemplateRef::Named("lst".into()));
    missing.lookup = TemplateLookup::NotFound;
    let m = template_message(check_command_template(&missing, Some(&catalog())));
    assert!(m.starts_with("command `lst` references template `lst`, but that template is not registered"));
    assert!(m.ends_with("; did you mean `list`?"));
}

#[test]
fn an_unreadable_template_reports_the_refresh_error() {
    let mut c = command("show", TemplateRef::Named("show".into()));
    c.lookup = TemplateLookup::Failed { location: " at `templates/show.jinja`".into(), message: "permission denied".into() };
    let m = template_message(check_command_template(&c, Some(&catalog())));
    assert_eq!(m, "template `show` at `templates/show.jinja` could not be refreshed: permission denied");
}

#[test]
fn an_event_rendering_command_needs_its_event_template() {
    let mut c = command("watch", TemplateRef::Named("watch".into()));
    c.emits_events = true;
    c.event_lookup = TemplateLookup::NotFound;
    let m = template_message(check_command_template(&c, Some(&catalog())));
    assert_eq!(
        m,
        "command `watch` produces its result while it runs, so it renders each event from template `watch.event`, \
         but that template is not registered; add it beside `watch`, or drop the `Results` parameter if the command \
         produces one batch value instead"
    );
    c.event_lookup = TemplateLookup::Failed { location: String::new(), message: "bad syntax".into() };
    let m = template_message(check_command_template(&c, Some(&catalog())));
    assert_eq!(m, "template `watch.event` could not be refreshed: bad syntax");
}

#[test]
fn an_event_rendering_command_may_lack_its_summary_template() {
    let mut c = command("watch", TemplateRef::Named("watch".into()));
    c.emits_events = true;
    c.lookup = TemplateLookup::NotFound;
    assert!(check_command_template(&c, Some(&catalog())).is_ok());
    c.lookup = TemplateLookup::Failed { location: String::new(), message: "bad syntax".into() };
    assert!(check_command_template(&c, Some(&catalog())).is_err());
}

#[test]
fn the_first_failing_command_gives_the_error() {
    let mut first = command("a", TemplateRef::Named("nope".into()));
    first.lookup = TemplateLookup::NotFound;
    let mut second = command("b", TemplateRef::Named("show".into()));
    second.lookup = TemplateLookup::Failed { location: String::new(), message: "broken".into() };
    let ok = command("c", TemplateRef::Named("list".into()));
    let m = template_message(validate_command_templates(&vec![ok, first, second], Some(&catalog())));
    assert!(m.starts_with("command `a` references template `nope`"));
    assert!(validate_command_templates(&vec![command("c", TemplateRef::Named("list".into()))], Some(&catalog())).is_ok());
}
