use standout::io::{IoErrorKind, IoFailure};
use standout::setup::SetupError;

#[test]
fn test_setup_error_display() {
    let err = SetupError::Template("test error".into());
    assert_eq!(err.message(), "template error: test error");

    let err = SetupError::ThemeNotFound("dark".into());
    assert_eq!(err.message(), "theme not found: dark");
}

#[test]
fn every_setup_error_names_what_failed() {
    assert_eq!(SetupError::Stylesheet("bad".into()).message(), "stylesheet error: bad");
    assert_eq!(SetupError::Config("bad".into()).message(), "configuration error: bad");
    assert_eq!(SetupError::DuplicateCommand("list".into()).message(), "duplicate command: list");
    let io: SetupError = IoFailure::new(IoErrorKind::NotFound, "no such file".into()).into();
    assert_eq!(io.message(), "setup I/O error: no such file");
    assert!(matches!(io, SetupError::Io(ref f) if f.kind == IoErrorKind::NotFound));
}
