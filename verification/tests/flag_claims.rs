use standout::cli::flag_claims::{
    config_override_flag_collision, framework_flag_collision, ArgLongs, FlagTree, InstalledFlags,
};
use standout::setup::SetupError;

fn arg(id: &str, long: Option<&str>, aliases: &[&str]) -> ArgLongs {
    ArgLongs { id: id.into(), long: long.map(String::from), aliases: aliases.iter().map(|a| a.to_string()).collect() }
}

fn command(name: &str, args: Vec<ArgLongs>, subs: Vec<FlagTree>) -> FlagTree {
    FlagTree { name: name.into(), long_flag: None, long_flag_aliases: Vec::new(), args, subs }
}

fn installed() -> InstalledFlags {
    InstalledFlags {
        output_flag: Some("output".into()),
        output_file_flag: Some("output-file-path".into()),
        color_flag: Some("color".into()),
        pager_flag: Some("no-pager".into()),
    }
}

fn config_message(r: Result<(), SetupError>) -> String {
    match r {
        Err(SetupError::Config(m)) => m,
        other => panic!("expected a configuration error, got {other:?}"),
    }
}

#[test]
fn a_framework_flag_declared_on_the_root_is_refused() {
    let tree = command("app", vec![arg("format", Some("output"), &[])], Vec::new());
    let message = config_message(framework_flag_collision(&installed(), &tree, &tree));
    assert_eq!(
        message,
        "output_flag installs `--output`, which this application already declares on `app`. \
         Rename standout's with output_flag(Some(\"...\")), drop it with no_output_flag(), \
         or rename the application's own flag"
    );
}

#[test]
fn the_owner_is_the_path_of_the_first_declaring_command() {
    let leaf = command("leaf", vec![arg("paint", None, &["color"])], Vec::new());
    let tree = command("app", Vec::new(), vec![command("quiet", Vec::new(), Vec::new()), command("sub", Vec::new(), vec![leaf])]);
    let message = config_message(framework_flag_collision(&installed(), &tree, &tree));
    assert!(message.starts_with("color_flag installs `--color`, which this application already declares on `app sub leaf`."));
    assert!(message.contains("drop it with no_color_flag(),"));
}

#[test]
fn a_subcommands_own_long_flag_counts() {
    let mut sub = command("pager", Vec::new(), Vec::new());
    sub.long_flag_aliases = vec!["no-pager".into()];
    let tree = command("app", Vec::new(), vec![sub]);
    let message = config_message(framework_flag_collision(&installed(), &tree, &tree));
    assert!(message.starts_with("pager_flag installs `--no-pager`, which this application already declares on `app pager`."));
}

#[test]
fn the_frameworks_own_arguments_are_not_collisions() {
    let tree = command(
        "app",
        vec![arg("_output_mode", Some("output"), &[]), arg("_color", Some("color"), &[]), arg("_no_pager", Some("no-pager"), &[])],
        Vec::new(),
    );
    assert!(framework_flag_collision(&installed(), &tree, &tree).is_ok());
}

#[test]
fn flags_are_checked_in_their_order() {
    let tree = command("app", vec![arg("paint", Some("color"), &[]), arg("fmt", Some("output-file-path"), &[])], Vec::new());
    let message = config_message(framework_flag_collision(&installed(), &tree, &tree));
    assert!(message.starts_with("output_file_flag installs `--output-file-path`"));
}

#[test]
fn dropped_flags_are_not_checked() {
    let tree = command("app", vec![arg("fmt", Some("output"), &[])], Vec::new());
    let none = InstalledFlags { output_flag: None, output_file_flag: None, color_flag: None, pager_flag: None };
    assert!(framework_flag_collision(&none, &tree, &tree).is_ok());
}

#[test]
fn generated_flags_are_looked_up_in_the_built_tree() {
    let tree = command("app", Vec::new(), Vec::new());
    let built = command("app", vec![arg("help", Some("help"), &[])], Vec::new());
    let flags = InstalledFlags { output_flag: Some("help".into()), output_file_flag: None, color_flag: None, pager_flag: None };
    assert!(framework_flag_collision(&flags, &tree, &tree).is_ok());
    let message = config_message(framework_flag_collision(&flags, &tree, &built));
    assert!(message.starts_with("output_flag installs `--help`, which this application already declares on `app`."));
    let other = InstalledFlags { output_flag: Some("verbose".into()), output_file_flag: None, color_flag: None, pager_flag: None };
    let declares_verbose = command("app", vec![arg("v", Some("verbose"), &[])], Vec::new());
    assert!(framework_flag_collision(&other, &tree, &declares_verbose).is_ok());
}

#[test]
fn an_override_flag_an_argument_takes_is_refused() {
    let tree = command("app", Vec::new(), vec![command("run", vec![arg("set", None, &["set"])], Vec::new())]);
    let message = config_message(config_override_flag_collision(&Some("set".into()), &tree, &tree));
    assert_eq!(message, "config_override_flag(\"set\") is already taken by this application's clap Command");
    assert!(config_override_flag_collision(&Some("define".into()), &tree, &tree).is_ok());
    assert!(config_override_flag_collision(&None, &tree, &tree).is_ok());
}

#[test]
fn the_override_argument_already_in_the_tree_is_a_collision() {
    let tree = command("app", vec![arg("_config_override", Some("define"), &[])], Vec::new());
    assert!(config_override_flag_collision(&Some("set".into()), &tree, &tree).is_err());
}

#[test]
fn an_override_flag_a_subcommand_is_invoked_by_is_refused() {
    let mut sub = command("sync", Vec::new(), Vec::new());
    sub.long_flag = Some("set".into());
    let tree = command("app", Vec::new(), vec![sub]);
    assert!(config_override_flag_collision(&Some("set".into()), &tree, &tree).is_err());
    let mut root = command("app", Vec::new(), Vec::new());
    root.long_flag = Some("set".into());
    assert!(config_override_flag_collision(&Some("set".into()), &root, &root).is_ok());
}
