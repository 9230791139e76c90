use standout::cli::help::{extract_default_subcommands, CommandSummary, Group, OptionData};
use standout::cli::help_args::ArgFacts;
use standout::cli::help_listing::{argument_sections, listed_subcommands, HelpArgument, SubcommandFacts};

fn sub(name: &str, order: usize) -> SubcommandFacts {
    SubcommandFacts {
        summary: CommandSummary { name: name.to_string(), about: format!("About {name}"), display_order: order },
        hidden: false,
    }
}

fn names(subs: &[CommandSummary]) -> Vec<&str> {
    subs.iter().map(|s| s.name.as_str()).collect()
}

fn facts(id: &str) -> ArgFacts {
    ArgFacts {
        id: id.to_string(),
        short: None,
        long: None,
        value_names: None,
        takes_values: false,
        default_values: Vec::new(),
        possible_values: Vec::new(),
        help: None,
        required: false,
    }
}

fn argument(arg: ArgFacts, positional: bool, order: usize, heading: Option<&str>) -> HelpArgument {
    HelpArgument { arg, hidden: false, positional, display_order: order, heading: heading.map(String::from) }
}

fn section_names(groups: &[Group<OptionData>]) -> Vec<(Option<String>, Vec<String>)> {
    groups.iter().map(|g| (g.title.clone(), g.items.iter().map(|i| i.name.clone()).collect())).collect()
}

#[test]
fn the_parsers_own_help_subcommand_is_not_listed() {
    let candidates = vec![sub("build", 0), sub("test", 1), sub("help", 2)];
    let listed = listed_subcommands(&candidates, false, false);
    assert_eq!(names(&listed), vec!["build", "test"]);
}

#[test]
fn an_applications_own_help_subcommand_is_listed() {
    let candidates = vec![sub("help", 0), sub("build", 1)];
    let listed = listed_subcommands(&candidates, true, false);
    assert_eq!(names(&listed), vec!["help", "build"]);
}

#[test]
fn hidden_subcommands_are_not_listed() {
    let mut secret = sub("secret", 0);
    secret.hidden = true;
    let candidates = vec![sub("visible", 1), secret];
    let listed = listed_subcommands(&candidates, false, false);
    assert_eq!(names(&listed), vec!["visible"]);
}

#[test]
fn subcommands_are_listed_in_display_order_keeping_ties_in_place() {
    let candidates = vec![sub("zeta", 2), sub("alpha", 1), sub("beta", 2), sub("first", 0), sub("gamma", 1)];
    let listed = listed_subcommands(&candidates, false, false);
    assert_eq!(names(&listed), vec!["first", "alpha", "gamma", "zeta", "beta"]);
    assert_eq!(listed[0].about, "About first");
    assert_eq!(listed[3].display_order, 2);
}

#[test]
fn a_lone_help_subcommand_is_listed_only_beside_topics() {
    let candidates = vec![sub("help", 0)];
    assert!(listed_subcommands(&candidates, true, false).is_empty());
    assert_eq!(names(&listed_subcommands(&candidates, true, true)), vec!["help"]);
}

#[test]
fn a_command_without_subcommands_lists_no_section() {
    let listed = listed_subcommands(&Vec::new(), false, false);
    assert!(listed.is_empty());
    assert!(extract_default_subcommands(&listed).is_empty());
}

#[test]
fn listed_subcommands_fill_the_commands_section() {
    let candidates = vec![sub("sub1", 0), sub("sub2", 0)];
    let sections = extract_default_subcommands(&listed_subcommands(&candidates, true, false));
    assert_eq!(sections.len(), 1);
    assert_eq!(sections[0].items.len(), 2);
}

#[test]
fn arguments_and_options_are_split_and_grouped_by_heading() {
    let mut help = facts("help");
    help.short = Some('h');
    help.long = Some("help".into());
    let mut version = facts("version");
    version.short = Some('V');
    version.long = Some("version".into());
    let mut output = facts("output");
    output.long = Some("output".into());
    output.takes_values = true;
    output.value_names = Some(vec!["FILE".into()]);
    let mut input = facts("input");
    input.value_names = Some(vec!["INPUT".into()]);
    input.takes_values = true;
    let mut secret = argument(facts("secret"), false, 0, None);
    secret.hidden = true;

    let args = vec![
        argument(version, false, 2, None),
        argument(output, false, 0, Some("Output")),
        argument(input, true, 0, None),
        secret,
        argument(help, false, 1, None),
    ];
    let (arguments, options) = argument_sections(args);
    assert_eq!(section_names(&arguments), vec![(None, vec!["INPUT".to_string()])]);
    assert_eq!(
        section_names(&options),
        vec![
            (None, vec!["-h, --help".to_string(), "-V, --version".to_string()]),
            (Some("Output".to_string()), vec!["--output".to_string()]),
        ]
    );
    assert_eq!(options[1].items[0].value_name.as_deref(), Some("<FILE>"));
    assert_eq!(arguments[0].items[0].value_name, None);
}

#[test]
fn no_arguments_give_no_sections() {
    let (arguments, options) = argument_sections(Vec::new());
    assert!(arguments.is_empty());
    assert!(options.is_empty());
}
