use standout::cli::unparsed::{color_from_unparsed, last_unparsed_flag_value, output_mode_from_unparsed, unparsed_flag_is_present};
use standout::cli::{ColorPolicy, Representation};

fn argv(words: &[&str]) -> Vec<Option<String>> {
    words.iter().map(|w| Some(w.to_string())).collect()
}

#[test]
fn the_last_value_wins_in_either_spelling() {
    let args = argv(&["myapp", "--output-file", "a.txt", "list", "--output-file=b.txt"]);
    assert_eq!(last_unparsed_flag_value("output-file", &args).as_deref(), Some("b.txt"));
    let args = argv(&["myapp", "--output-file=b.txt", "--output-file", "c.txt"]);
    assert_eq!(last_unparsed_flag_value("output-file", &args).as_deref(), Some("c.txt"));
}

#[test]
fn a_flag_without_a_value_clears_it() {
    let args = argv(&["myapp", "--output-file=a.txt", "--output-file", "--verbose"]);
    assert_eq!(last_unparsed_flag_value("output-file", &args), None);
    let args = argv(&["myapp", "--output-file=a.txt", "--output-file"]);
    assert_eq!(last_unparsed_flag_value("output-file", &args), None);
}

#[test]
fn the_double_dash_ends_the_scan() {
    let args = argv(&["myapp", "--output-file=a.txt", "--", "--output-file=b.txt"]);
    assert_eq!(last_unparsed_flag_value("output-file", &args).as_deref(), Some("a.txt"));
    let args = argv(&["myapp", "--output-file=a.txt", "--output-file", "--"]);
    assert_eq!(last_unparsed_flag_value("output-file", &args), None);
}

#[test]
fn the_program_name_and_non_utf8_arguments_are_skipped() {
    let mut args = argv(&["--output-file=prog", "--output-file"]);
    args.push(None);
    args.push(Some("x.txt".to_string()));
    // The argument after the flag is no text, so the flag has no value.
    assert_eq!(last_unparsed_flag_value("output-file", &args), None);
    let mut args = argv(&["myapp"]);
    args.push(None);
    args.push(Some("--output-file=y.txt".to_string()));
    assert_eq!(last_unparsed_flag_value("output-file", &args).as_deref(), Some("y.txt"));
    assert_eq!(last_unparsed_flag_value("output-file", &Vec::new()), None);
}

#[test]
fn a_flag_is_present_before_the_double_dash_only() {
    assert!(unparsed_flag_is_present("no-pager", &argv(&["myapp", "list", "--no-pager"])));
    assert!(!unparsed_flag_is_present("no-pager", &argv(&["myapp", "--", "--no-pager"])));
    assert!(!unparsed_flag_is_present("no-pager", &argv(&["--no-pager"])));
}

#[test]
fn the_representation_and_color_read_from_the_raw_line() {
    let args = argv(&["myapp", "--output", "json", "--color=never"]);
    assert_eq!(output_mode_from_unparsed(Some("output"), &args, Representation::Human), Representation::Json);
    assert_eq!(output_mode_from_unparsed(None, &args, Representation::Human), Representation::Human);
    assert_eq!(
        output_mode_from_unparsed(Some("output"), &argv(&["myapp", "--output=xml"]), Representation::Human),
        Representation::Human
    );
    assert_eq!(color_from_unparsed(Some("color"), &args), Some(ColorPolicy::Never));
    assert_eq!(color_from_unparsed(None, &args), None);
}
