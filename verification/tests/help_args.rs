use standout::cli::help_args::{
    default_value, flag_name, flag_value_name, help_arg, option_row, positional_name, possible_values, ArgFacts,
};

fn arg(id: &str) -> ArgFacts {
    ArgFacts {
        id: id.to_string(),
        short: None,
        long: None,
        value_names: None,
        takes_values: false,
        default_values: Vec::new(),
        possible_values: Vec::new(),
        help: None,
        required: false,
    }
}

#[test]
fn flags_are_named_by_their_spellings_or_their_id() {
    let mut a = arg("tree");
    assert_eq!(flag_name(&a), "tree");
    a.short = Some('t');
    assert_eq!(flag_name(&a), "-t");
    a.long = Some("tree".into());
    assert_eq!(flag_name(&a), "-t, --tree");
    a.short = None;
    assert_eq!(flag_name(&a), "--tree");
}

#[test]
fn a_positional_is_named_by_its_first_value_name() {
    let mut a = arg("formula");
    assert_eq!(positional_name(&a), "formula");
    a.value_names = Some(vec!["FILE".into(), "MORE".into()]);
    assert_eq!(positional_name(&a), "FILE");
}

#[test]
fn a_value_placeholder_brackets_each_name() {
    let mut a = arg("mode");
    assert_eq!(flag_value_name(&a), None);
    a.takes_values = true;
    assert_eq!(flag_value_name(&a).as_deref(), Some("<mode>"));
    a.value_names = Some(vec!["FROM".into(), "TO".into()]);
    assert_eq!(flag_value_name(&a).as_deref(), Some("<FROM> <TO>"));
}

#[test]
fn defaults_and_possible_values_show_only_for_value_taking_arguments() {
    let mut a = arg("mode");
    a.default_values = vec!["set".into(), "tree".into()];
    a.possible_values = vec![("set".into(), false), ("secret".into(), true), ("tree".into(), false)];
    assert_eq!(default_value(&a), None);
    assert!(possible_values(&a).is_empty());
    a.takes_values = true;
    assert_eq!(default_value(&a).as_deref(), Some("set, tree"));
    assert_eq!(possible_values(&a), ["set", "tree"]);
}

#[test]
fn help_records_carry_the_spellings_and_the_value_facts() {
    let mut formula = arg("formula");
    formula.takes_values = true;
    formula.required = true;
    formula.help = Some("Which one".into());
    let doc = help_arg(&formula);
    assert_eq!(doc.value_name.as_deref(), Some("formula"));
    assert!(doc.required);
    assert_eq!(doc.short, None);
    assert_eq!(doc.long, None);

    let mut tree = arg("tree");
    tree.short = Some('t');
    tree.long = Some("tree".into());
    tree.help = Some("As a tree".into());
    let doc = help_arg(&tree);
    assert_eq!(doc.short.as_deref(), Some("-t"));
    assert_eq!(doc.long.as_deref(), Some("--tree"));
    assert_eq!(doc.value_name, None);
    assert!(!doc.required);
    assert_eq!(doc.help, "As a tree");
    assert_eq!(doc.default, None);
    assert!(doc.possible_values.is_empty());

    let mut mode = arg("mode");
    mode.long = Some("mode".into());
    mode.takes_values = true;
    mode.value_names = Some(vec!["MODE".into()]);
    mode.default_values = vec!["set".into()];
    mode.possible_values = vec![("set".into(), false), ("tree".into(), false)];
    let doc = help_arg(&mode);
    assert_eq!(doc.value_name.as_deref(), Some("MODE"));
    assert_eq!(doc.default.as_deref(), Some("set"));
    assert_eq!(doc.possible_values, ["set", "tree"]);

    let row = option_row(flag_name(&mode), flag_value_name(&mode), &mode);
    assert_eq!(row.name, "--mode");
    assert_eq!(row.value_name.as_deref(), Some("<MODE>"));
    assert_eq!(row.help, "");
    assert_eq!(row.default.as_deref(), Some("set"));
}
