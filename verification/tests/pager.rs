use std::collections::HashMap;

use standout::cli::pager::{app_pager_var, child_env, outcome_of, pager_variables, Pager, PagerOutcome, PagerRun};

fn env(pairs: &[(&str, &str)]) -> HashMap<String, String> {
    pairs.iter().map(|(key, value)| (key.to_string(), value.to_string())).collect()
}

/// The pager the environment `vars` names for `app_name`.
fn resolve(app_name: Option<&str>, vars: &HashMap<String, String>) -> Option<Pager> {
    let values = pager_variables(app_name).iter().map(|name| vars.get(name).cloned()).collect();
    Pager::resolve_from(values)
}

#[test]
fn the_application_variable_outranks_pager() {
    let vars = env(&[("MYAPP_PAGER", "sed -n 1p"), ("PAGER", "less")]);
    assert_eq!(resolve(Some("myapp"), &vars).unwrap().command(), "sed -n 1p");
}

#[test]
fn pager_answers_when_the_application_variable_is_unset() {
    let vars = env(&[("PAGER", "less -FRX")]);
    assert_eq!(resolve(Some("myapp"), &vars).unwrap().command(), "less -FRX");
}

#[test]
fn an_empty_winning_value_pages_nothing() {
    let vars = env(&[("MYAPP_PAGER", ""), ("PAGER", "less")]);
    assert_eq!(resolve(Some("myapp"), &vars), None);
    assert_eq!(resolve(Some("myapp"), &env(&[("PAGER", "   ")])), None);
}

#[test]
fn neither_variable_set_pages_nothing() {
    assert_eq!(resolve(Some("myapp"), &env(&[])), None);
}

#[test]
fn an_application_that_never_named_itself_reads_pager_alone() {
    let vars = env(&[("MYAPP_PAGER", "sed -n 1p"), ("PAGER", "less")]);
    assert_eq!(resolve(None, &vars).unwrap().command(), "less");
    assert_eq!(resolve(None, &env(&[("MYAPP_PAGER", "less")])), None);
}

#[test]
fn a_winning_value_is_trimmed() {
    let vars = env(&[("PAGER", "  less -R \n")]);
    assert_eq!(resolve(Some("myapp"), &vars).unwrap().command(), "less -R");
}

#[test]
fn the_variable_name_upper_cases_the_application_and_replaces_the_rest() {
    assert_eq!(app_pager_var("myapp"), "MYAPP_PAGER");
    assert_eq!(app_pager_var("my-app"), "MY_APP_PAGER");
    assert_eq!(app_pager_var("my.app 2"), "MY_APP_2_PAGER");
    assert_eq!(app_pager_var("café"), "CAF__PAGER");
}

#[test]
fn the_child_gets_the_reader_settings_the_parent_left_unset() {
    assert_eq!(child_env(|_| false), vec![("LESS", "FRX"), ("LV", "-c")]);
    assert_eq!(child_env(|key| key == "LESS"), vec![("LV", "-c")]);
    assert!(child_env(|_| true).is_empty());
}

#[test]
fn a_pager_that_cannot_start_says_so() {
    assert_eq!(outcome_of(PagerRun::Finished { unread: false, exit_code: Some(127) }), PagerOutcome::CouldNotStart);
    assert_eq!(outcome_of(PagerRun::NotSpawned), PagerOutcome::CouldNotStart);
}

#[test]
fn a_pager_that_is_not_executable_cannot_start_either() {
    assert_eq!(outcome_of(PagerRun::Finished { unread: true, exit_code: Some(126) }), PagerOutcome::CouldNotStart);
}

#[test]
fn a_pager_that_stops_reading_says_so() {
    assert_eq!(outcome_of(PagerRun::Finished { unread: true, exit_code: Some(0) }), PagerOutcome::ReaderLeft);
}

#[test]
fn a_pager_that_reads_everything_is_paged() {
    assert_eq!(outcome_of(PagerRun::Finished { unread: false, exit_code: Some(0) }), PagerOutcome::Paged);
    assert_eq!(outcome_of(PagerRun::Finished { unread: false, exit_code: None }), PagerOutcome::Paged);
    assert_eq!(Pager::named("less").command(), "less");
}
