use standout::cli::setup_checks::{check_setup, configured_theme, SetupFacts, ThemeSource};
use standout::setup::SetupError;

fn facts() -> SetupFacts {
    SetupFacts {
        help_handling: true,
        has_command_groups: false,
        has_topics: false,
        help_word: false,
        registered_paths: vec!["list".to_string(), "add".to_string()],
        has_term_accessor: false,
        has_config: true,
        config_command: true,
        config_override_flag: None,
        output_flag: Some("output".to_string()),
        output_file_flag: Some("output-file-path".to_string()),
        color_flag: Some("color".to_string()),
        pager_flag: Some("no-pager".to_string()),
        config_tree_longs: vec!["scope".to_string(), "set".to_string()],
    }
}

fn config_message(result: Result<(), SetupError>) -> String {
    match result {
        Err(SetupError::Config(message)) => message,
        other => panic!("{other:?}"),
    }
}

#[test]
fn a_consistent_setup_passes() {
    assert!(check_setup(&facts()).is_ok());
}

#[test]
fn help_features_need_help_handling() {
    let mut f = facts();
    f.help_handling = false;
    f.has_topics = true;
    assert!(config_message(check_setup(&f)).starts_with("topics is configured while help handling is off"));
    f.has_command_groups = true;
    let message = config_message(check_setup(&f));
    assert!(message.starts_with("command_groups is configured while help handling is off"));
    assert!(message.ends_with("or drop the command_groups"));
    f.has_command_groups = false;
    f.has_topics = false;
    f.help_word = true;
    assert!(config_message(check_setup(&f)).starts_with("help_word is set while help handling is off"));
}

#[test]
fn a_registered_help_command_collides_with_the_help_word() {
    let mut f = facts();
    f.registered_paths.push("help".to_string());
    match check_setup(&f) {
        Err(SetupError::DuplicateCommand(message)) => {
            assert!(message.starts_with("help — this application registers a `help` command"))
        }
        other => panic!("{other:?}"),
    }
    f.help_handling = false;
    assert!(check_setup(&f).is_ok());
}

#[test]
fn configuration_flags_need_a_configuration() {
    let mut f = facts();
    f.has_config = false;
    f.has_term_accessor = true;
    assert!(config_message(check_setup(&f)).starts_with("term_settings is set without .config(...)"));
    f.has_term_accessor = false;
    f.config_override_flag = Some("set-config".to_string());
    assert_eq!(
        config_message(check_setup(&f)),
        "config_override_flag(\"set-config\") is set without .config(...): there is no configuration for the flag to override"
    );
    f.config_override_flag = None;
    f.config_command = false;
    assert!(config_message(check_setup(&f)).starts_with("no_config_command() is set without .config(...)"));
}

#[test]
fn an_override_flag_may_not_take_a_framework_flag() {
    let mut f = facts();
    f.config_override_flag = Some("color".to_string());
    assert_eq!(config_message(check_setup(&f)), "config_override_flag(\"color\") names a flag standout already installs");
    f.config_override_flag = Some("scope".to_string());
    assert!(check_setup(&f).is_err());
    f.config_command = false;
    assert!(check_setup(&f).is_ok());
}

#[test]
fn the_config_tree_may_not_take_a_framework_flag_or_the_config_word() {
    let mut f = facts();
    f.color_flag = Some("set".to_string());
    f.pager_flag = Some("scope".to_string());
    let message = config_message(check_setup(&f));
    assert!(message.starts_with("config — color_flag(Some(\"set\")) installs `--set` as a root-global flag"), "{message}");

    let mut f = facts();
    f.registered_paths.push("config.show".to_string());
    f.registered_paths.push("config".to_string());
    let message = config_message(check_setup(&f));
    assert!(message.starts_with("config — this application registers `config`, and standout installs"), "{message}");
    f.config_command = false;
    assert!(check_setup(&f).is_ok());
}

use standout::cli::setup_checks::malformed_registrations;

#[test]
fn a_registration_path_with_a_blank_name_is_refused() {
    let paths = vec!["db..migrate".to_string(), "list".to_string(), ".hidden".to_string(), "".to_string(), "tail.".to_string()];
    let message = config_message(malformed_registrations(&paths));
    assert_eq!(
        message,
        "Registration path `.hidden` has a blank command name: a path is `.`-separated command names, and only the empty path names something (the root command of a flat app). Drop the leading, trailing or doubled `.`."
    );
    assert!(malformed_registrations(&vec!["".to_string(), "db.migrate".to_string()]).is_ok());
}

#[test]
fn a_theme_comes_from_the_one_place_configured() {
    let names = vec!["dark".to_string(), "light".to_string()];
    assert!(matches!(configured_theme(true, None, None), Ok(ThemeSource::Given)));
    assert!(matches!(configured_theme(true, Some(&names), None), Err(SetupError::Config(m)) if m.contains(".theme(...)")));
    assert!(matches!(configured_theme(false, Some(&names), Some("dark".to_string())), Ok(ThemeSource::Registered(n)) if n == "dark"));
    assert!(matches!(configured_theme(false, Some(&names), None), Ok(ThemeSource::Unthemed)));
    assert!(matches!(configured_theme(false, None, None), Ok(ThemeSource::Unthemed)));
}

#[test]
fn a_default_theme_that_does_not_load_is_not_found() {
    let names = vec!["light".to_string()];
    assert!(matches!(configured_theme(false, Some(&names), Some("dark".to_string())), Err(SetupError::ThemeNotFound(n)) if n == "dark"));
    match configured_theme(false, None, Some("dark".to_string())) {
        Err(e) => assert_eq!(e.message(), "theme not found: dark"),
        Ok(_) => panic!("expected the theme not to be found"),
    }
}
