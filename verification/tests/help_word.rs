use standout::cli::default_command::CommandNames;
use standout::cli::help_word::{
    claims_root_help, duplicate_help_word, help_word_collision, registered_claim, registered_help_collision,
    DECLARED_CLAIM,
};
use standout::setup::SetupError;

#[test]
fn the_help_word_and_paths_under_it_claim_root_help() {
    assert!(claims_root_help("help"));
    assert!(claims_root_help("help.topics"));
    assert!(!claims_root_help("helper"));
    assert!(!claims_root_help("list.help"));
}

#[test]
fn a_registered_claim_says_how_the_word_is_taken() {
    assert_eq!(registered_claim("help"), "this application registers a `help` command");
    assert_eq!(
        registered_claim("help.me"),
        "this application registers `help.me`, hanging a command off the same root word"
    );
}

fn message(error: SetupError) -> String {
    match error {
        SetupError::DuplicateCommand(message) => message,
        other => panic!("{other:?}"),
    }
}

#[test]
fn the_least_claiming_path_is_reported() {
    let paths = vec!["list".to_string(), "help.z".to_string(), "help.a".to_string()];
    let error = registered_help_collision(&paths).unwrap();
    assert_eq!(message(error), message(duplicate_help_word(&registered_claim("help.a"))));
    assert!(registered_help_collision(&vec!["list".to_string(), "helper".to_string()]).is_none());
}

#[test]
fn a_second_subcommand_answering_to_help_collides() {
    let subs = vec![
        CommandNames { name: "help".into(), aliases: Vec::new() },
        CommandNames { name: "assist".into(), aliases: vec!["help".into()] },
    ];
    let error = help_word_collision(true, &subs).unwrap();
    let text = message(error);
    assert!(text.starts_with("help — this application's clap `Command` declares `help`"));
    assert!(text.contains(".help_handling(false)"));
    assert!(text.contains(DECLARED_CLAIM));
    assert!(help_word_collision(false, &subs).is_none());
    assert!(help_word_collision(true, &subs[..1].to_vec()).is_none());
}
