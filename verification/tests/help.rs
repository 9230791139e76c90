use clap::Command;

use standout::cli::help::{
    check_command_groups, extract_default_subcommands, help_request_page, HelpPage, extract_grouped_subcommands, group_by_heading,
    only_the_help_word, option_section_names, section_names, validate_command_groups, CommandGroup, CommandSummary,
    Group, OptionData, Subcommand,
};
use standout::cli::help_source::HelpNode;
use standout::cli::representation::{help_is_a_document, human_help_format};
use standout::cli::Representation;
use standout::setup::SetupError;

#[test]
fn a_mode_is_either_the_page_or_the_document() {
    assert!(help_is_a_document(Representation::Json));
    assert!(help_is_a_document(Representation::Yaml));
    assert!(help_is_a_document(Representation::Csv));
    assert!(!help_is_a_document(Representation::Ndjson));
    assert!(!help_is_a_document(Representation::Human));
    assert!(!help_is_a_document(Representation::Human));
}

#[test]
fn human_help_format_maps_structured_to_auto() {
    assert_eq!(human_help_format(Representation::Json), Representation::Human);
    assert_eq!(human_help_format(Representation::Yaml), Representation::Human);
    assert_eq!(human_help_format(Representation::Csv), Representation::Human);
    assert_eq!(human_help_format(Representation::Ndjson), Representation::Human);
    assert_eq!(human_help_format(Representation::Human), Representation::Human);
    assert_eq!(human_help_format(Representation::Human), Representation::Human);
    assert_eq!(human_help_format(Representation::Human), Representation::Human);
}

fn command_node(cmd: &Command) -> HelpNode {
    HelpNode {
        name: cmd.get_name().to_string(),
        aliases: cmd.get_aliases().map(String::from).collect(),
        about: cmd.get_about().map(|s| s.to_string()),
        long_about: cmd.get_long_about().map(|s| s.to_string()),
        usage: String::new(),
        display_order: cmd.get_display_order(),
        hidden: cmd.is_hide_set(),
        help_subcommand_disabled: cmd.is_disable_help_subcommand_set(),
        args: Vec::new(),
        subs: cmd.get_subcommands().map(command_node).collect(),
    }
}

fn group(title: &str, commands: &[Option<&str>]) -> CommandGroup {
    CommandGroup {
        title: title.into(),
        help: None,
        commands: commands.iter().map(|c| c.map(|name| name.to_string())).collect(),
    }
}

#[test]
fn test_validate_ok() {
    let cmd = Command::new("root").subcommand(Command::new("init")).subcommand(Command::new("list"));
    let groups = vec![group("Main", &[Some("init"), Some("list")])];
    assert!(validate_command_groups(&command_node(&cmd), &groups).is_ok());
}

#[test]
fn test_validate_phantom_reference() {
    let cmd = Command::new("root").subcommand(Command::new("init"));
    let groups = vec![group("Main", &[Some("init"), Some("nonexistent")])];
    let err = validate_command_groups(&command_node(&cmd), &groups).unwrap_err();
    let msg = err.message();
    assert!(msg.contains("nonexistent"));
    assert!(msg.contains("does not exist"));
}

#[test]
fn test_validate_ungrouped_commands_ok() {
    let cmd = Command::new("root")
        .subcommand(Command::new("init"))
        .subcommand(Command::new("list"))
        .subcommand(Command::new("extra"));
    let groups = vec![group("Main", &[Some("init")])];
    assert!(validate_command_groups(&command_node(&cmd), &groups).is_ok());
}

#[test]
fn test_validate_with_separators() {
    let cmd = Command::new("root").subcommand(Command::new("a")).subcommand(Command::new("b"));
    let groups = vec![group("Main", &[Some("a"), None, Some("b")])];
    assert!(validate_command_groups(&command_node(&cmd), &groups).is_ok());
}

#[test]
fn test_validate_hidden_commands_not_checked() {
    let cmd = Command::new("root")
        .subcommand(Command::new("visible"))
        .subcommand(Command::new("hidden").hide(true));
    let groups = vec![group("Main", &[Some("visible"), Some("hidden")])];
    let err = validate_command_groups(&command_node(&cmd), &groups).unwrap_err();
    let msg = err.message();
    assert!(msg.contains("hidden"));
}

#[test]
fn every_phantom_is_reported_on_its_own_line_in_group_order() {
    let known = vec!["init".to_string()];
    let groups = vec![group("Main", &[Some("init"), Some("x")]), group("Extra", &[None, Some("y")])];
    match check_command_groups(&known, &groups) {
        Err(SetupError::Config(message)) => assert_eq!(
            message,
            "command group validation failed:\n  group \"Main\": command \"x\" does not exist\n  group \"Extra\": command \"y\" does not exist"
        ),
        other => panic!("{other:?}"),
    }
}

fn summary(name: &str, about: &str, display_order: usize) -> CommandSummary {
    CommandSummary { name: name.into(), about: about.into(), display_order }
}

fn rows(group: &Group<Subcommand>) -> Vec<(String, bool)> {
    group.items.iter().map(|item| (item.name.clone(), item.separator)).collect()
}

#[test]
fn all_subcommands_stand_in_one_commands_section_by_default() {
    assert!(extract_default_subcommands(&Vec::new()).is_empty());
    let subs = vec![summary("init", "Set up", 0), summary("list", "Show", 1)];
    let sections = extract_default_subcommands(&subs);
    assert_eq!(sections.len(), 1);
    assert_eq!(sections[0].title.as_deref(), Some("Commands"));
    assert_eq!(rows(&sections[0]), [("init".to_string(), false), ("list".to_string(), false)]);
    assert_eq!(sections[0].items[0].about, "Set up");
}

#[test]
fn groups_show_their_commands_and_the_rest_go_to_other_in_display_order() {
    let subs = vec![
        summary("init", "", 5),
        summary("list", "", 1),
        summary("extra", "", 9),
        summary("zap", "", 2),
        summary("add", "", 1),
    ];
    let mut main = group("Main", &[Some("init"), None, Some("list"), Some("ghost"), Some("init")]);
    main.help = Some("The usual".into());
    let groups = vec![main, group("Empty", &[Some("ghost")])];
    let sections = extract_grouped_subcommands(&subs, &groups);
    assert_eq!(sections.len(), 2);
    assert_eq!(sections[0].title.as_deref(), Some("Main"));
    assert_eq!(sections[0].help.as_deref(), Some("The usual"));
    assert_eq!(
        rows(&sections[0]),
        [("init".to_string(), false), (String::new(), true), ("list".to_string(), false)]
    );
    assert_eq!(sections[1].title.as_deref(), Some("Other"));
    assert_eq!(sections[1].help, None);
    let other: Vec<String> = sections[1].items.iter().map(|item| item.name.clone()).collect();
    assert_eq!(other, ["add", "zap", "extra"]);
}

#[test]
fn a_configuration_that_claims_every_command_has_no_other_section() {
    let subs = vec![summary("a", "", 0), summary("b", "", 0)];
    let sections = extract_grouped_subcommands(&subs, &[group("All", &[Some("b"), Some("a")])]);
    assert_eq!(sections.len(), 1);
    assert_eq!(rows(&sections[0]), [("b".to_string(), false), ("a".to_string(), false)]);
}

fn option(name: &str, value_name: Option<&str>) -> OptionData {
    OptionData {
        name: name.into(),
        value_name: value_name.map(String::from),
        help: String::new(),
        short: None,
        long: None,
        default: None,
        possible_values: Vec::new(),
    }
}

#[test]
fn rows_group_by_heading_with_the_unheaded_first_and_headings_in_order() {
    let rows = vec![
        (Some("Output".to_string()), option("--json", None)),
        (None, option("--verbose", None)),
        (Some("Filters".to_string()), option("--tag", Some("TAG"))),
        (Some("Output".to_string()), option("--color", Some("WHEN"))),
        (None, option("--quiet", None)),
    ];
    let groups = group_by_heading(rows);
    let titles: Vec<Option<&str>> = groups.iter().map(|g| g.title.as_deref()).collect();
    assert_eq!(titles, [None, Some("Filters"), Some("Output")]);
    assert_eq!(section_names(&groups), ["--verbose", "--quiet", "--tag", "--json", "--color"]);
    assert_eq!(option_section_names(&groups), ["--verbose", "--quiet", "--tag TAG", "--json", "--color WHEN"]);
    assert!(groups.iter().all(|g| g.help.is_none()));
}

#[test]
fn no_rows_make_no_sections() {
    let groups = group_by_heading(Vec::<(Option<String>, OptionData)>::new());
    assert!(groups.is_empty());
}

#[test]
fn only_the_help_word_is_a_single_help_command() {
    assert!(only_the_help_word(&vec![summary("help", "", 0)]));
    assert!(!only_the_help_word(&vec![summary("help", "", 0), summary("build", "", 0)]));
    assert!(!only_the_help_word(&vec![summary("build", "", 0)]));
    assert!(!only_the_help_word(&Vec::new()));
}

#[test]
fn help_words_pick_the_topics_list_a_command_a_topic_or_nothing() {
    assert_eq!(help_request_page("topics", true, Representation::Json, true), HelpPage::TopicsList);
    assert_eq!(help_request_page("list", true, Representation::Json, false), HelpPage::Document);
    assert_eq!(help_request_page("list", true, Representation::Ndjson, false), HelpPage::CommandPage);
    assert_eq!(help_request_page("storage", false, Representation::Human, true), HelpPage::Topic);
    assert_eq!(
        help_request_page("nope", false, Representation::Human, false),
        HelpPage::Unrecognized("The subcommand or topic 'nope' wasn't recognized".to_string())
    );
}
