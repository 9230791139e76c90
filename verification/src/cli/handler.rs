//! What a dispatched run came to, and the errors a run ends in, held as the
//! plain values the emission of a run reads.

use vstd::prelude::*;

use crate::io::IoFailure;
use crate::text::concat;

verus! {

/// The kind of payload a final write was carrying.
#[derive(Debug, Clone, Copy, PartialEq, Eq, Structural)]
pub enum OutputKind {
    /// Rendered text.
    Text,
    /// Binary bytes.
    Binary,
    /// An artifact's bytes or its report.
    Artifact,
}

/// The hook phase a hook failure happened in.
#[derive(Debug, Clone, Copy, PartialEq, Eq, Structural)]
pub enum HookPhase {
    /// Before the handler runs.
    PreDispatch,
    /// After the handler, on its data.
    PostDispatch,
    /// After rendering, on the output.
    PostOutput,
}

/// What a run failed at.
#[derive(Debug, Clone, Copy, PartialEq, Eq, Structural)]
pub enum RunErrorKind {
    /// The arguments did not parse.
    ClapUsage,
    /// The handler failed.
    Handler,
    /// A hook failed.
    Hook(HookPhase),
    /// The configuration could not be resolved.
    Config,
    /// A default-command resolver named an unknown command.
    DefaultCommand,
    /// Rendering failed.
    Render,
    /// The final write of the run's output failed.
    FinalWrite(OutputKind),
    /// The application declared the failure and its stderr bytes.
    App,
    /// An external program's failure, passed through with its stderr bytes.
    External,
}

/// An error a run ends in.
#[derive(Debug)]
pub struct RunError {
    /// What the error displays as (for an application or external failure,
    /// the stderr bytes it owns, as text).
    pub message: String,
    /// What the run failed at.
    pub kind: RunErrorKind,
    /// The I/O failure underneath, for a failed final write.
    pub source: Option<IoFailure>,
}

impl RunError {
    /// An error of `kind` displaying as `message`.
    pub fn new(message: &str, kind: RunErrorKind) -> (e: Self)
        ensures
            e.message@ == message@,
            e.kind == kind,
            e.source is None,
    {
        RunError { message: message.to_string(), kind, source: None }
    }

    /// The same error, carrying the I/O failure underneath it.
    pub fn with_source(self, source: IoFailure) -> (e: Self)
        ensures
            e.message == self.message,
            e.kind == self.kind,
            e.source == Some(source),
    {
        RunError { message: self.message, kind: self.kind, source: Some(source) }
    }

    /// What the run failed at.
    pub fn kind(&self) -> (k: RunErrorKind)
        ensures
            k == self.kind,
    {
        self.kind
    }

    /// The error's text.
    pub fn as_str(&self) -> (s: &str)
        ensures
            s@ == self.message@,
    {
        self.message.as_str()
    }

    /// The I/O failure underneath, if any.
    pub fn source(&self) -> (s: Option<&IoFailure>)
        ensures
            match s {
                Some(f) => self.source == Some(*f),
                None => self.source is None,
            },
    {
        match &self.source {
            Some(f) => Some(f),
            None => None,
        }
    }

    /// Whether the error's own bytes go to stderr as they are: an
    /// application's or an external program's failure.
    pub fn writes_diagnostic_verbatim(&self) -> (b: bool)
        ensures
            b == (self.kind == RunErrorKind::App || self.kind == RunErrorKind::External),
    {
        match self.kind {
            RunErrorKind::App | RunErrorKind::External => true,
            _ => false,
        }
    }
}

/// A final-write failure of `kind` whose message is `prefix` and the I/O
/// failure's own message.
pub fn final_write_error(prefix: &str, kind: OutputKind, failure: IoFailure) -> (e: RunError)
    ensures
        e.message@ == prefix@ + failure.message@,
        e.kind == RunErrorKind::FinalWrite(kind),
        e.source == Some(failure),
{
    let message = concat(prefix, failure.message.as_str());
    RunError { message, kind: RunErrorKind::FinalWrite(kind), source: Some(failure) }
}

/// What a successful handler's output was.
#[derive(Debug, Clone, Copy, PartialEq, Eq, Structural)]
pub enum SuccessKind {
    /// A command's rendered output.
    Command,
    /// The help page (clap's own, or the grouped page the framework renders).
    ClapHelp,
    /// The version clap prints for `--version`.
    ClapVersion,
}

/// A successful run's rendered text.
#[derive(Debug, Clone)]
pub struct RunOutput {
    /// The rendered text.
    pub text: String,
    /// What the text is.
    pub kind: SuccessKind,
    /// Whether the run's warnings are already inside the text (the array an
    /// incremental command writes under `json` or `yaml`).
    pub warnings_included: bool,
}

impl RunOutput {
    /// A command's rendered text.
    pub fn command(text: &str) -> (o: Self)
        ensures
            o.text@ == text@,
            o.kind == SuccessKind::Command,
            !o.warnings_included,
    {
        RunOutput { text: text.to_string(), kind: SuccessKind::Command, warnings_included: false }
    }

    /// A help page.
    pub fn clap_help(text: &str) -> (o: Self)
        ensures
            o.text@ == text@,
            o.kind == SuccessKind::ClapHelp,
            !o.warnings_included,
    {
        RunOutput { text: text.to_string(), kind: SuccessKind::ClapHelp, warnings_included: false }
    }

    /// The version text clap prints.
    pub fn clap_version(text: &str) -> (o: Self)
        ensures
            o.text@ == text@,
            o.kind == SuccessKind::ClapVersion,
            !o.warnings_included,
    {
        RunOutput { text: text.to_string(), kind: SuccessKind::ClapVersion, warnings_included: false }
    }

    /// Whether there is no text.
    pub fn is_empty(&self) -> (b: bool)
        ensures
            b == (self.text@.len() == 0),
    {
        self.text.as_str().is_empty()
    }

    /// The text.
    pub fn as_str(&self) -> (s: &str)
        ensures
            s@ == self.text@,
    {
        self.text.as_str()
    }

    /// What the text is.
    pub fn kind(&self) -> (k: SuccessKind)
        ensures
            k == self.kind,
    {
        self.kind
    }

    /// Whether the run's warnings are already inside the text.
    pub fn warnings_included(&self) -> (b: bool)
        ensures
            b == self.warnings_included,
    {
        self.warnings_included
    }
}

/// Where an artifact's bytes go.
#[derive(Debug, Clone, PartialEq, Eq)]
pub enum ArtifactDestination {
    /// Standard output.
    Stdout,
    /// A file at this path.
    File(String),
}

impl ArtifactDestination {
    /// Whether the bytes go to standard output.
    pub fn is_stdout(&self) -> (b: bool)
        ensures
            b == (*self is Stdout),
    {
        match self {
            ArtifactDestination::Stdout => true,
            _ => false,
        }
    }
}

/// The record of an artifact's delivery: where it went and how many bytes.
#[derive(Debug, Clone)]
pub struct ArtifactReceipt {
    /// Where the bytes went.
    pub destination: ArtifactDestination,
    /// How many bytes were delivered.
    pub len: usize,
}

impl ArtifactReceipt {
    /// A receipt for `len` bytes delivered to `destination`.
    pub fn new(destination: ArtifactDestination, len: usize) -> (r: Self)
        ensures
            r.destination == destination,
            r.len == len,
    {
        ArtifactReceipt { destination, len }
    }
}

/// A completed artifact run: the bytes, where they went, and the rendered report.
#[derive(Debug, Clone)]
pub struct ArtifactRun {
    /// The artifact's bytes.
    pub bytes: Vec<u8>,
    /// The destination the artifact suggested, if any.
    pub suggested_destination: Option<String>,
    /// Where the bytes went.
    pub receipt: ArtifactReceipt,
    /// The rendered report, if any.
    pub report: Option<String>,
}

impl ArtifactRun {
    /// A completed artifact run.
    pub fn new(
        bytes: Vec<u8>,
        suggested_destination: Option<String>,
        receipt: ArtifactReceipt,
        report: Option<String>,
    ) -> (r: Self)
        ensures
            r.bytes@ == bytes@,
            r.suggested_destination == suggested_destination,
            r.receipt == receipt,
            r.report == report,
    {
        ArtifactRun { bytes, suggested_destination, receipt, report }
    }

    /// Where the bytes went.
    pub fn destination(&self) -> (d: &ArtifactDestination)
        ensures
            *d == self.receipt.destination,
    {
        &self.receipt.destination
    }
}

/// What a dispatched run came to.
#[derive(Debug)]
pub enum DispatchResult {
    /// Rendered text.
    Handled(RunOutput),
    /// Binary bytes and their suggested file name.
    Binary(Vec<u8>, String),
    /// A completed artifact run.
    Artifact(ArtifactRun),
    /// Nothing to print.
    Silent,
    /// The run failed.
    Error(RunError),
    /// No registered command matched; the caller handles the arguments.
    NoMatch,
}

/// An artifact a handler produced, before its destination is chosen.
#[derive(Debug, Clone)]
pub struct ArtifactOutput {
    /// The artifact's bytes.
    pub bytes: Vec<u8>,
    /// The destination the artifact suggests, if any.
    pub suggested_destination: Option<String>,
    /// Whether the artifact may go to standard output.
    pub stdout_allowed: bool,
}

/// The message of the error for an artifact with nowhere to go.
pub open spec fn no_destination_message() -> Seq<char> {
    "Error writing artifact: no destination selected (the artifact suggested none, stdout was not allowed, and no output file was given)"@
}

/// Where an artifact goes: the output file named on the command line, else
/// the destination it suggested, else standard output when it allows it;
/// with none of these it has nowhere to go and the run fails.
pub fn resolve_artifact_destination(artifact: &ArtifactOutput, override_path: Option<String>)
    -> (r: Result<ArtifactDestination, RunError>)
    ensures
        match override_path {
            Some(path) => r == Ok::<ArtifactDestination, RunError>(ArtifactDestination::File(path)),
            None => match artifact.suggested_destination {
                Some(path) => r matches Ok(ArtifactDestination::File(p)) && p@ == path@,
                None => if artifact.stdout_allowed {
                    r == Ok::<ArtifactDestination, RunError>(ArtifactDestination::Stdout)
                } else {
                    r matches Err(e) && e.kind == RunErrorKind::FinalWrite(OutputKind::Artifact)
                        && e.message@ == no_destination_message() && e.source is None
                },
            },
        },
{
    if let Some(path) = override_path {
        return Ok(ArtifactDestination::File(path));
    }
    if let Some(path) = &artifact.suggested_destination {
        return Ok(ArtifactDestination::File(path.clone()));
    }
    if artifact.stdout_allowed {
        return Ok(ArtifactDestination::Stdout);
    }
    Err(RunError::new(
        "Error writing artifact: no destination selected (the artifact suggested none, stdout was not allowed, and no output file was given)",
        RunErrorKind::FinalWrite(OutputKind::Artifact),
    ))
}

/// The help page a run ended in, if it ended in one.
pub fn help_page(outcome: &DispatchResult) -> (page: Option<&str>)
    ensures
        match page {
            Some(p) => outcome matches DispatchResult::Handled(o) && o.kind == SuccessKind::ClapHelp
                && p@ == o.text@,
            None => !(outcome matches DispatchResult::Handled(o) && o.kind == SuccessKind::ClapHelp),
        },
{
    match outcome {
        DispatchResult::Handled(output) => match output.kind {
            SuccessKind::ClapHelp => Some(output.as_str()),
            _ => None,
        },
        _ => None,
    }
}

} // verus!
