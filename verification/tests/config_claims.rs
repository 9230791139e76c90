use standout::cli::config_claims::{config_command_collision, ArgSpellings};
use standout::cli::default_command::CommandNames;
use standout::setup::SetupError;

fn spell(id: &str, longs: &[&str], shorts: &[char], global: bool) -> ArgSpellings {
    ArgSpellings {
        id: id.into(),
        longs: longs.iter().map(|l| l.to_string()).collect(),
        shorts: shorts.to_vec(),
        global,
    }
}

fn tree() -> Vec<ArgSpellings> {
    vec![spell("file", &["file"], &['f'], false), spell("scope", &["scope"], &[], false)]
}

fn sub(name: &str, aliases: &[&str]) -> CommandNames {
    CommandNames { name: name.into(), aliases: aliases.iter().map(|a| a.to_string()).collect() }
}

fn config_message(r: Result<(), SetupError>) -> String {
    match r {
        Err(SetupError::Config(m)) => m,
        other => panic!("expected a configuration error, got {other:?}"),
    }
}

#[test]
fn nothing_collides_when_no_config_command_is_installed() {
    let subs = vec![sub("config", &[])];
    let args = vec![spell("file", &["file"], &[], true)];
    assert!(config_command_collision(false, &subs, &args, &tree()).is_ok());
}

#[test]
fn a_subcommand_answering_to_config_is_refused() {
    let subs = vec![sub("list", &[]), sub("settings", &["config"])];
    let m = config_message(config_command_collision(true, &subs, &Vec::new(), &tree()));
    assert_eq!(
        m,
        "config — this application's clap `Command` declares `config` (as a subcommand name or alias), and \
         standout installs a `config` command of its own for the configuration given to .config(...). Rename \
         the application's command, or call .no_config_command() to keep the name"
    );
}

#[test]
fn a_global_argument_the_config_tree_takes_is_refused() {
    let args = vec![spell("verbose", &["verbose"], &['v'], true), spell("path", &["path", "file"], &[], true)];
    let m = config_message(config_command_collision(true, &vec![sub("list", &[])], &args, &tree()));
    assert_eq!(
        m,
        "config — this application's clap `Command` declares a root-global argument with `--file`, and the \
         `config` command standout installs for the configuration given to .config(...) takes it on its own \
         tree, where clap would propagate the global. Rename the flag, or call .no_config_command() to keep it"
    );
}

#[test]
fn shorts_and_ids_are_claims_too_and_locals_are_not() {
    let short = vec![spell("force", &["force"], &['f'], true)];
    assert!(config_message(config_command_collision(true, &Vec::new(), &short, &tree()))
        .contains("root-global argument with `-f`,"));
    let id = vec![spell("scope", &["where"], &[], true)];
    assert!(config_message(config_command_collision(true, &Vec::new(), &id, &tree()))
        .contains("root-global argument with the id `scope`,"));
    let local = vec![spell("file", &["file"], &['f'], false)];
    assert!(config_command_collision(true, &Vec::new(), &local, &tree()).is_ok());
}
