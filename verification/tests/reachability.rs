use standout::cli::reachability::{reaches_path, unreachable_registrations, CommandTree};
use standout::cli::dispatch::path_segments;
use standout::setup::SetupError;

fn node(name: &str, aliases: &[&str], subs: Vec<CommandTree>) -> CommandTree {
    CommandTree { name: name.into(), aliases: aliases.iter().map(|a| a.to_string()).collect(), subs }
}

fn app() -> CommandTree {
    node(
        "app",
        &[],
        vec![
            node("list", &[], Vec::new()),
            node("remove", &["rm"], Vec::new()),
            node("my-cmd", &[], Vec::new()),
            node("remote", &[], vec![node("add", &["a"], Vec::new())]),
        ],
    )
}

fn registered(paths: &[&str]) -> Vec<String> {
    paths.iter().map(|p| p.to_string()).collect()
}

fn message(r: Result<(), SetupError>) -> String {
    match r {
        Err(SetupError::Config(m)) => m,
        other => panic!("expected a configuration error, got {other:?}"),
    }
}

#[test]
fn declared_paths_and_the_root_are_reached() {
    assert!(unreachable_registrations(&registered(&["", "list", "remote", "remote.add"]), &app()).is_ok());
    assert!(reaches_path(&app(), &path_segments("remote.add")));
    assert!(!reaches_path(&app(), &path_segments("remote.a")));
}

#[test]
fn an_undeclared_path_is_refused_with_advice() {
    let m = message(unreachable_registrations(&registered(&["list", "remote.push"]), &app()));
    assert_eq!(
        m,
        "No invocation reaches `remote push`: this application registers a handler for it, but its clap \
         `Command` declares no such subcommand. Register the handler under a name the CLI declares, or drop \
         the registration."
    );
}

#[test]
fn a_separator_variant_names_the_declared_spelling() {
    let m = message(unreachable_registrations(&registered(&["my_cmd"]), &app()));
    assert_eq!(
        m,
        "No invocation reaches `my_cmd`: this application registers a handler for it, but its clap \
         `Command` declares no such subcommand. The CLI declares `my-cmd` — a registered name must match the \
         CLI definition exactly (clap's derive names subcommands in kebab-case)."
    );
}

#[test]
fn an_alias_names_the_command_it_stands_for() {
    let m = message(unreachable_registrations(&registered(&["remote.a"]), &app()));
    assert_eq!(
        m,
        "No invocation reaches `remote a`: this application registers a handler for it, but its clap \
         `Command` declares no such subcommand. The CLI declares `remote add` and accepts `remote a` as an \
         alias for it — clap reports the declared name to dispatch, so register the handler under `remote add`."
    );
}

#[test]
fn the_first_unreachable_path_in_string_order_is_reported() {
    let m = message(unreachable_registrations(&registered(&["zeta", "rm", "beta"]), &app()));
    assert!(m.starts_with("No invocation reaches `beta`:"));
    let m = message(unreachable_registrations(&registered(&["zeta", "rm"]), &app()));
    assert!(m.starts_with("No invocation reaches `rm`:"));
    assert!(m.ends_with("so register the handler under `remove`."));
}
