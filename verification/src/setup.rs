//! Errors that can occur while an application is being set up.

use vstd::prelude::*;

use crate::io::IoFailure;
use crate::text::concat;

verus! {

broadcast use vstd::string::group_string_axioms;

/// A failure while building an application: a template, a stylesheet, a
/// theme, the configuration, a command registered twice, or I/O.
#[derive(Debug)]
pub enum SetupError {
    /// A template failed to load or compile.
    Template(String),
    /// A stylesheet failed to parse.
    Stylesheet(String),
    /// The named theme does not exist.
    ThemeNotFound(String),
    /// The configuration is invalid.
    Config(String),
    /// A command was registered twice.
    DuplicateCommand(String),
    /// Reading something from disk failed.
    Io(IoFailure),
}

/// The text a setup error reads as.
pub open spec fn setup_error_text(e: SetupError) -> Seq<char> {
    match e {
        SetupError::Template(m) => "template error: "@ + m@,
        SetupError::Stylesheet(m) => "stylesheet error: "@ + m@,
        SetupError::ThemeNotFound(m) => "theme not found: "@ + m@,
        SetupError::Config(m) => "configuration error: "@ + m@,
        SetupError::DuplicateCommand(m) => "duplicate command: "@ + m@,
        SetupError::Io(f) => "setup I/O error: "@ + f.message@,
    }
}

impl SetupError {
    /// The error as one line of text, naming what failed.
    pub fn message(&self) -> (m: String)
        ensures
            m@ == setup_error_text(*self),
    {
        match self {
            SetupError::Template(m) => concat("template error: ", m.as_str()),
            SetupError::Stylesheet(m) => concat("stylesheet error: ", m.as_str()),
            SetupError::ThemeNotFound(m) => concat("theme not found: ", m.as_str()),
            SetupError::Config(m) => concat("configuration error: ", m.as_str()),
            SetupError::DuplicateCommand(m) => concat("duplicate command: ", m.as_str()),
            SetupError::Io(f) => concat("setup I/O error: ", f.message.as_str()),
        }
    }
}

impl From<IoFailure> for SetupError {
    fn from(e: IoFailure) -> (r: SetupError)
        ensures
            r == SetupError::Io(e),
    {
        SetupError::Io(e)
    }
}

impl vstd::std_specs::convert::FromSpecImpl<IoFailure> for SetupError {
    open spec fn obeys_from_spec() -> bool {
        true
    }

    open spec fn from_spec(e: IoFailure) -> SetupError {
        SetupError::Io(e)
    }
}

} // verus!
