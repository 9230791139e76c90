use standout::cli::flag_claims::InstalledFlags;
use standout::cli::framework_args::{framework_args, ArgTaking};
use standout::cli::Representation;

fn all_installed() -> InstalledFlags {
    InstalledFlags {
        output_flag: Some("output".into()),
        output_file_flag: Some("output-file-path".into()),
        color_flag: Some("color".into()),
        pager_flag: Some("no-pager".into()),
    }
}

#[test]
fn the_framework_flags_come_in_their_order_with_their_spellings() {
    let args = framework_args(&all_installed(), &Some("set".into()), Representation::Human);
    let ids: Vec<&str> = args.iter().map(|a| a.id.as_str()).collect();
    assert_eq!(ids, ["_output_mode", "_color", "_no_pager", "_output_file_path", "_config_override"]);
    let longs: Vec<&str> = args.iter().map(|a| a.long.as_str()).collect();
    assert_eq!(longs, ["output", "color", "no-pager", "output-file-path", "set"]);

    let output = &args[0];
    assert_eq!(output.value_name.as_deref(), Some("MODE"));
    assert_eq!(output.values, ["json", "yaml", "csv", "ndjson", "term-debug"]);
    assert_eq!(output.default, None);
    assert_eq!(output.taking, ArgTaking::Value);
    assert_eq!(output.help, "Structured output encoding");

    let color = &args[1];
    assert_eq!(color.values, ["auto", "always", "never"]);
    assert_eq!(color.default.as_deref(), Some("auto"));

    assert_eq!(args[2].taking, ArgTaking::Presence);
    assert_eq!(args[2].value_name, None);
    assert_eq!(args[3].value_name.as_deref(), Some("PATH"));
    assert_eq!(args[4].taking, ArgTaking::Repeated);
    assert_eq!(args[4].value_name.as_deref(), Some("KEY=VALUE"));
}

#[test]
fn the_output_flag_defaults_to_a_structured_fallback() {
    let args = framework_args(&all_installed(), &None, Representation::Json);
    assert_eq!(args[0].default.as_deref(), Some("json"));
    assert_eq!(args.len(), 4);
}

#[test]
fn dropped_flags_are_not_added() {
    let none = InstalledFlags { output_flag: None, output_file_flag: None, color_flag: None, pager_flag: Some("np".into()) };
    let args = framework_args(&none, &None, Representation::Human);
    assert_eq!(args.len(), 1);
    assert_eq!(args[0].id, "_no_pager");
    assert_eq!(args[0].long, "np");
}
