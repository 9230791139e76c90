use standout::cli::dispatch::path_segments;

#[test]
fn the_root_path_has_no_segments() {
    assert!(path_segments("").is_empty());
}

#[test]
fn a_path_splits_at_its_dots() {
    assert_eq!(path_segments("db.migrate.up"), ["db", "migrate", "up"]);
    assert_eq!(path_segments("list"), ["list"]);
    assert_eq!(path_segments("a..b"), ["a", "", "b"]);
    assert_eq!(path_segments("a."), ["a", ""]);
}


use standout::cli::dispatch::{parse_failure_outcome, ParseFailureKind};
use standout::cli::handler::{DispatchResult, RunErrorKind, SuccessKind};

#[test]
fn a_parse_failure_is_a_usage_error_or_clap_output() {
    match parse_failure_outcome(ParseFailureKind::Usage, "error: unexpected argument") {
        DispatchResult::Error(e) => {
            assert_eq!(e.kind, RunErrorKind::ClapUsage);
            assert_eq!(e.message, "error: unexpected argument");
        }
        other => panic!("{other:?}"),
    }
    match parse_failure_outcome(ParseFailureKind::UnknownDefault, "default command resolver returned `x`") {
        DispatchResult::Error(e) => assert_eq!(e.kind, RunErrorKind::DefaultCommand),
        other => panic!("{other:?}"),
    }
    match parse_failure_outcome(ParseFailureKind::DisplayVersion, "myapp 1.0\n") {
        DispatchResult::Handled(o) => {
            assert_eq!(o.kind, SuccessKind::ClapVersion);
            assert_eq!(o.text, "myapp 1.0\n");
        }
        other => panic!("{other:?}"),
    }
    match parse_failure_outcome(ParseFailureKind::DisplayHelp, "Usage: myapp") {
        DispatchResult::Handled(o) => assert_eq!(o.kind, SuccessKind::ClapHelp),
        other => panic!("{other:?}"),
    }
}
