use clap::{Arg, Command};
use standout::cli::help::{CommandGroup, CommandSummary, HelpDocument, HelpLength};
use standout::cli::help_source::{
    about_text, arg_takes_values, extract_help_data, find_subcommand, subcommand_sections, usage_text, HelpData,
    HelpNode,
};
use standout::cli::help_args::ArgFacts;
use standout::cli::help_listing::HelpArgument;
use standout::cli::default_command::CommandNames;
use standout::topics::{Topic, TopicRegistry, TopicType};

fn help_argument(arg: &clap::Arg) -> HelpArgument {
    HelpArgument {
        arg: ArgFacts {
            id: arg.get_id().to_string(),
            short: arg.get_short(),
            long: arg.get_long().map(String::from),
            value_names: arg.get_value_names().map(|names| names.iter().map(|n| n.to_string()).collect()),
            takes_values: arg_takes_values(
                arg.get_num_args().map(|range| range.takes_values()),
                arg.get_action().takes_values(),
            ),
            default_values: arg.get_default_values().iter().map(|v| v.to_string_lossy().into_owned()).collect(),
            possible_values: arg
                .get_possible_values()
                .iter()
                .map(|v| (v.get_name().to_string(), v.is_hide_set()))
                .collect(),
            help: arg.get_help().map(|h| h.to_string()),
            required: arg.is_required_set(),
        },
        hidden: arg.is_hide_set(),
        positional: arg.is_positional(),
        display_order: arg.get_display_order(),
        heading: arg.get_help_heading().map(String::from),
    }
}

fn node(cmd: &Command) -> HelpNode {
    HelpNode {
        name: cmd.get_name().to_string(),
        aliases: cmd.get_aliases().map(String::from).collect(),
        about: cmd.get_about().map(|s| s.to_string()),
        long_about: cmd.get_long_about().map(|s| s.to_string()),
        usage: cmd.clone().render_usage().to_string(),
        display_order: cmd.get_display_order(),
        hidden: cmd.is_hide_set(),
        help_subcommand_disabled: cmd.is_disable_help_subcommand_set(),
        args: cmd.get_arguments().map(help_argument).collect(),
        subs: cmd.get_subcommands().map(node).collect(),
    }
}

fn help_tree(root: &Command) -> HelpNode {
    let mut built = root.clone();
    built.build();
    node(&built)
}

fn tree() -> Command {
    Command::new("app").about("The root").subcommand(
        Command::new("nest").about("A level").alias("n").subcommand(
            Command::new("leaf")
                .alias("lf")
                .about("The leaf")
                .long_about("The leaf, at length")
                .arg(Arg::new("formula").required(true).help("Which one"))
                .arg(Arg::new("tree").long("tree").short('t').action(clap::ArgAction::SetTrue).help("As a tree"))
                .arg(Arg::new("mode").long("mode").value_name("MODE").default_value("set").value_parser(["set", "tree"])),
        ),
    )
}

fn extract_short(cmd: &Command) -> HelpData {
    extract_help_data(help_tree(cmd), &[], None, HelpLength::Short, None).unwrap()
}

fn extract_with_topics(cmd: &Command, registry: &TopicRegistry) -> HelpData {
    extract_help_data(help_tree(cmd), &[], None, HelpLength::Short, Some(registry)).unwrap()
}

fn subcommand_names(data: &HelpData) -> Vec<String> {
    data.subcommands[0].items.iter().map(|item| item.name.clone()).collect()
}

#[test]
fn a_nested_leaf_names_its_full_path() {
    let document = HelpDocument::extract(help_tree(&tree()), &["nest", "leaf"], HelpLength::Short).unwrap();
    assert_eq!(document.schema_version, 1);
    assert_eq!(document.name, "leaf");
    assert_eq!(document.path, ["app", "nest", "leaf"]);
    assert_eq!(document.usage, "app nest leaf [OPTIONS] <formula>");
    assert_eq!(document.about, "The leaf");
    assert!(document.subcommands.is_empty());
}

#[test]
fn an_aliased_path_names_the_canonical_commands() {
    let document = HelpDocument::extract(help_tree(&tree()), &["n", "lf"], HelpLength::Short).unwrap();
    assert_eq!(document.name, "leaf");
    assert_eq!(document.path, ["app", "nest", "leaf"]);
    assert_eq!(document.usage, "app nest leaf [OPTIONS] <formula>");
}

#[test]
fn long_help_reads_the_long_about() {
    let document = HelpDocument::extract(help_tree(&tree()), &["nest", "leaf"], HelpLength::Long).unwrap();
    assert_eq!(document.about, "The leaf, at length");
}

#[test]
fn args_carry_the_typed_tokens_and_the_value_facts() {
    let document = HelpDocument::extract(help_tree(&tree()), &["nest", "leaf"], HelpLength::Short).unwrap();
    let names: Vec<&str> = document.args.iter().map(|a| a.name.as_str()).collect();
    assert_eq!(names, ["formula", "tree", "mode", "help"]);

    let formula = &document.args[0];
    assert_eq!(formula.value_name.as_deref(), Some("formula"));
    assert!(formula.required);
    assert_eq!(formula.short, None);
    assert_eq!(formula.long, None);

    let tree = &document.args[1];
    assert_eq!(tree.short.as_deref(), Some("-t"));
    assert_eq!(tree.long.as_deref(), Some("--tree"));
    assert_eq!(tree.value_name, None);
    assert!(!tree.required);
    assert_eq!(tree.help, "As a tree");
    assert_eq!(tree.default, None);
    assert!(tree.possible_values.is_empty());

    let mode = &document.args[2];
    assert_eq!(mode.value_name.as_deref(), Some("MODE"));
    assert_eq!(mode.default.as_deref(), Some("set"));
    assert_eq!(mode.possible_values, ["set", "tree"]);
}

#[test]
fn the_root_lists_its_subcommands() {
    let document = HelpDocument::extract(help_tree(&tree()), &[], HelpLength::Short).unwrap();
    assert_eq!(document.path, ["app"]);
    assert_eq!(document.usage, "app [COMMAND]");
    assert_eq!(document.subcommands.len(), 2, "{:?}", document.subcommands);
    assert_eq!(document.subcommands[0].name, "nest");
    assert_eq!(document.subcommands[0].about, "A level");
    assert_eq!(document.subcommands[1].name, "help");
}

#[test]
fn an_unknown_path_is_no_document() {
    assert!(HelpDocument::extract(help_tree(&tree()), &["nest", "twig"], HelpLength::Short).is_none());
}

#[test]
fn test_extract_basic() {
    let cmd = Command::new("test").about("A test command");
    let data = extract_short(&cmd);
    assert_eq!(data.name, "test");
    assert_eq!(data.about, "A test command");
}

#[test]
fn test_extract_subcommands() {
    let cmd = Command::new("root")
        .disable_help_subcommand(true)
        .subcommand(Command::new("sub1").about("Sub 1"))
        .subcommand(Command::new("sub2").about("Sub 2"));

    let data = extract_short(&cmd);
    assert_eq!(data.subcommands.len(), 1);
    assert_eq!(data.subcommands[0].items.len(), 2);
}

#[test]
fn test_clap_generated_help_flag_is_listed() {
    let cmd = Command::new("root").disable_help_subcommand(true);

    let data = extract_short(&cmd);
    let names: Vec<&str> = data.options[0].items.iter().map(|item| item.name.as_str()).collect();
    assert_eq!(names, vec!["-h, --help"]);
}

#[test]
fn test_clap_generated_version_flag_is_listed() {
    let cmd = Command::new("root").version("1.0").disable_help_subcommand(true);

    let data = extract_short(&cmd);
    let names: Vec<&str> = data.options[0].items.iter().map(|item| item.name.as_str()).collect();
    assert_eq!(names, vec!["-h, --help", "-V, --version"]);
}

#[test]
fn test_clap_generated_help_subcommand_is_not_listed() {
    let cmd = Command::new("root")
        .subcommand(Command::new("build").about("Build it"))
        .subcommand(Command::new("test").about("Test it"));

    assert_eq!(subcommand_names(&extract_short(&cmd)), vec!["build", "test"]);
}

#[test]
fn test_an_already_built_command_still_drops_the_generated_help_word() {
    let mut cmd = Command::new("root")
        .subcommand(Command::new("build").about("Build it"))
        .subcommand(Command::new("test").about("Test it"));
    cmd.build();

    assert_eq!(subcommand_names(&extract_short(&cmd)), vec!["build", "test"]);
}

#[test]
fn test_an_already_built_commands_own_help_subcommand_is_listed() {
    let mut cmd = Command::new("root")
        .disable_help_subcommand(true)
        .subcommand(Command::new("help").about("Browse the manual"))
        .subcommand(Command::new("build").about("Build it"));
    cmd.build();

    assert_eq!(subcommand_names(&extract_short(&cmd)), vec!["help", "build"]);
}

#[test]
fn test_an_applications_own_help_subcommand_is_listed() {
    let cmd = Command::new("root")
        .disable_help_subcommand(true)
        .subcommand(Command::new("help").about("Browse the manual"))
        .subcommand(Command::new("build").about("Build it"));

    assert_eq!(subcommand_names(&extract_short(&cmd)), vec!["help", "build"]);
}

#[test]
fn grouped_subcommands_leave_the_rest_to_other() {
    let cmd = Command::new("root")
        .subcommand(Command::new("a-very-long-command-name").about("Long"))
        .subcommand(Command::new("short").about("Short"));
    let groups = vec![CommandGroup { title: "Main".into(), help: None, commands: vec![Some("short".into())] }];

    let data = extract_help_data(help_tree(&cmd), &[], Some(&groups), HelpLength::Short, None).unwrap();
    assert_eq!(data.subcommands.len(), 2, "expected a Main and an Other");
    assert_eq!(data.subcommands[0].title.as_deref(), Some("Main"));
    assert_eq!(data.subcommands[1].title.as_deref(), Some("Other"));
    assert_eq!(data.subcommands[1].items[0].name, "a-very-long-command-name");
}

#[test]
fn test_a_nested_leaf_usage_names_the_path_to_it() {
    let cmd = Command::new("app").subcommand(
        Command::new("nest").subcommand(
            Command::new("inner")
                .subcommand(Command::new("leaf").arg(Arg::new("all").long("all").action(clap::ArgAction::SetTrue))),
        ),
    );

    let data = extract_help_data(help_tree(&cmd), &["nest", "inner", "leaf"], None, HelpLength::Short, None).unwrap();
    assert_eq!(data.name, "leaf");
    assert_eq!(data.usage, "app nest inner leaf [OPTIONS]");
    assert!(extract_help_data(help_tree(&cmd), &["nest", "twig"], None, HelpLength::Short, None).is_none());
}

#[test]
fn test_empty_subcommands() {
    let cmd = Command::new("root");
    let data = extract_short(&cmd);
    assert!(data.subcommands.is_empty());
}

#[test]
fn test_short_length_uses_about_long_uses_long_about() {
    let cmd = Command::new("root").about("Terse").long_about("The full story");

    assert_eq!(extract_short(&cmd).about, "Terse");
    assert_eq!(extract_help_data(help_tree(&cmd), &[], None, HelpLength::Long, None).unwrap().about, "The full story");
}

#[test]
fn test_long_length_falls_back_to_about() {
    let cmd = Command::new("root").about("Terse");
    assert_eq!(extract_help_data(help_tree(&cmd), &[], None, HelpLength::Long, None).unwrap().about, "Terse");
}

#[test]
fn test_option_carries_default_and_possible_values() {
    let cmd = Command::new("root").disable_help_flag(true).arg(
        Arg::new("output")
            .long("output")
            .default_value("auto")
            .value_parser(["auto", "term", "text"])
            .help("Output format"),
    );

    let data = extract_short(&cmd);
    let opt = &data.options[0].items[0];
    assert_eq!(opt.default.as_deref(), Some("auto"));
    assert_eq!(opt.possible_values, vec!["auto", "term", "text"]);
}

#[test]
fn test_hidden_possible_values_left_out() {
    let cmd = Command::new("root").disable_help_flag(true).arg(Arg::new("mode").long("mode").value_parser([
        clap::builder::PossibleValue::new("shown"),
        clap::builder::PossibleValue::new("secret").hide(true),
    ]));

    let data = extract_short(&cmd);
    assert_eq!(data.options[0].items[0].possible_values, vec!["shown"]);
}

#[test]
fn test_presence_bool_has_no_value_name_or_possible_values() {
    let cmd = Command::new("root").disable_help_flag(true).arg(
        Arg::new("staged")
            .long("staged")
            .action(clap::ArgAction::SetTrue)
            .value_parser(clap::builder::BoolishValueParser::new()),
    );

    let data = extract_short(&cmd);
    let opt = &data.options[0].items[0];
    assert_eq!(opt.name, "--staged");
    assert_eq!(opt.value_name, None);
    assert!(opt.possible_values.is_empty());
}

#[test]
fn test_value_taking_bool_keeps_value_name_and_possible_values() {
    let cmd = Command::new("root").disable_help_flag(true).arg(
        Arg::new("color")
            .long("color")
            .value_name("BOOL")
            .action(clap::ArgAction::Set)
            .value_parser(clap::builder::BoolishValueParser::new()),
    );

    let data = extract_short(&cmd);
    let opt = &data.options[0].items[0];
    assert_eq!(opt.name, "--color");
    assert_eq!(opt.value_name.as_deref(), Some("<BOOL>"));
    assert_eq!(opt.possible_values, vec!["true", "false"]);
}

#[test]
fn test_value_taking_option_uses_clap_fallback_metavar() {
    let cmd = Command::new("root")
        .disable_help_flag(true)
        .arg(Arg::new("threshold").long("threshold").action(clap::ArgAction::Set));

    let data = extract_short(&cmd);
    assert_eq!(data.options[0].items[0].value_name.as_deref(), Some("<threshold>"));
}

#[test]
fn test_positionals_land_in_arguments_not_options() {
    let cmd = Command::new("root")
        .disable_help_flag(true)
        .arg(Arg::new("range").help("Git range to diff"))
        .arg(Arg::new("staged").long("staged").help("Use the index"));

    let data = extract_short(&cmd);
    assert_eq!(data.arguments[0].items[0].name, "range");
    assert_eq!(data.options[0].items[0].name, "--staged");
    assert!(data.options.iter().all(|group| group.items.iter().all(|item| item.name != "range")));
}

#[test]
fn test_positional_uses_declared_value_name() {
    let cmd = Command::new("root").disable_help_flag(true).arg(Arg::new("range").value_name("RANGE").help("A range"));

    let data = extract_short(&cmd);
    assert_eq!(data.arguments[0].items[0].name, "RANGE");
}

#[test]
fn test_help_only_commands_section_is_dropped() {
    let cmd = Command::new("root")
        .disable_help_subcommand(true)
        .subcommand(Command::new("help").about("Print this message"));

    let data = extract_short(&cmd);
    assert!(data.subcommands.is_empty(), "a COMMANDS section listing only standout's own word is noise");
}

#[test]
fn test_help_only_commands_section_kept_when_topics_exist() {
    let cmd = Command::new("root")
        .disable_help_subcommand(true)
        .subcommand(Command::new("help").about("Print this message"));
    let mut registry = TopicRegistry::new();
    registry.add_topic(Topic::new("Storage", "content", TopicType::Text, None));

    let data = extract_with_topics(&cmd, &registry);
    assert_eq!(
        data.subcommands[0].items[0].name, "help",
        "`help <topic>` is a real destination, so the word stays listed"
    );
}

#[test]
fn test_help_alongside_real_commands_is_kept() {
    let cmd = Command::new("root")
        .disable_help_subcommand(true)
        .subcommand(Command::new("help").about("Print this message"))
        .subcommand(Command::new("build").about("Build it"));

    let data = extract_short(&cmd);
    assert_eq!(data.subcommands[0].items.len(), 2);
}

#[test]
fn topics_fill_learn_more_sorted_by_name() {
    let cmd = Command::new("root");
    let mut registry = TopicRegistry::new();
    registry.add_topic(Topic::new("A Very Long Topic Name Here", "content", TopicType::Text, None));
    registry.add_topic(Topic::new("Short", "content", TopicType::Text, None));

    let data = extract_with_topics(&cmd, &registry);
    assert_eq!(data.learn_more.len(), 2);
    assert_eq!(data.learn_more[0].name, "a-very-long-topic-name-here");
    assert_eq!(data.learn_more[1].title, "Short");
}

#[test]
fn a_usage_line_loses_its_prefix_only_when_it_has_one() {
    assert_eq!(usage_text("Usage: app [OPTIONS]"), "app [OPTIONS]");
    assert_eq!(usage_text("app [OPTIONS]"), "app [OPTIONS]");
    assert_eq!(usage_text("Usage:"), "Usage:");
    assert_eq!(usage_text("Usage: "), "");
}

#[test]
fn the_long_description_falls_back_to_the_short_one() {
    assert_eq!(about_text(HelpLength::Long, Some("Long".into()), Some("Short".into())), "Long");
    assert_eq!(about_text(HelpLength::Long, None, Some("Short".into())), "Short");
    assert_eq!(about_text(HelpLength::Short, Some("Long".into()), Some("Short".into())), "Short");
    assert_eq!(about_text(HelpLength::Short, Some("Long".into()), None), "");
}

#[test]
fn a_word_finds_the_first_subcommand_it_names() {
    let subs = vec![
        CommandNames { name: "build".into(), aliases: vec!["b".into()] },
        CommandNames { name: "bundle".into(), aliases: vec!["b".into(), "bu".into()] },
    ];
    assert_eq!(find_subcommand(&subs, &"bundle".to_string()), Some(1));
    assert_eq!(find_subcommand(&subs, &"b".to_string()), Some(0));
    assert_eq!(find_subcommand(&subs, &"bu".to_string()), Some(1));
    assert_eq!(find_subcommand(&subs, &"test".to_string()), None);
}

#[test]
fn a_name_listed_twice_counts_once_in_grouped_sections() {
    let listed = vec![
        CommandSummary { name: "a".into(), about: "first".into(), display_order: 0 },
        CommandSummary { name: "b".into(), about: "".into(), display_order: 1 },
        CommandSummary { name: "a".into(), about: "second".into(), display_order: 2 },
    ];
    let groups = vec![CommandGroup { title: "Main".into(), help: None, commands: vec![Some("a".into())] }];
    let sections = subcommand_sections(&listed, Some(&groups));
    assert_eq!(sections.len(), 2);
    assert_eq!(sections[0].items.len(), 1);
    assert_eq!(sections[0].items[0].about, "second");
    assert_eq!(sections[1].items.len(), 1);
    assert_eq!(sections[1].items[0].name, "b");
    assert_eq!(subcommand_sections(&listed, None)[0].items.len(), 3);
}
