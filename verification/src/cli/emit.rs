//! The one place a completed run becomes bytes on stdout and stderr.
//!
//! The emission is a conversation: [`emit_run_result`] names the first write
//! (or the run's final answer), the caller performs it — `write_all` and then
//! `flush` on the named stream — and hands back how it went to
//! [`Emission::resume`], which names the next step. The representation
//! decides where a failure goes: under `json`, `yaml`, `csv` and `ndjson` the
//! failure is the stdout document and stderr carries nothing the framework
//! wrote for it; under the human representations the failure is prose on
//! stderr. An application's or external program's failure writes its own
//! bytes to stderr under every representation and adds the document in the
//! structured ones. A broken pipe on text stdout is a reader that left early,
//! not a failure.

use vstd::prelude::*;

use crate::cli::handler::{
    final_write_error, ArtifactRun, DispatchResult, OutputKind, RunError, RunErrorKind, RunOutput,
};
use crate::cli::representation::Representation;
use crate::io::{IoErrorKind, IoFailure};

verus! {

broadcast use vstd::string::group_string_axioms;

/// The two streams a run writes to.
#[derive(Debug, Clone, Copy, PartialEq, Eq, Structural)]
pub enum Channel {
    /// Standard output.
    Stdout,
    /// Standard error.
    Stderr,
}

/// A structured diagnostic document could not be read back.
#[derive(Debug, Clone, PartialEq, Eq)]
pub struct DiagnosticDocumentError(String);

impl View for DiagnosticDocumentError {
    type V = Seq<char>;

    /// The text the error reads as.
    closed spec fn view(&self) -> Seq<char> {
        self.0@
    }
}

impl DiagnosticDocumentError {
    /// An error that reads as `message`.
    pub fn new(message: String) -> (e: Self)
        ensures
            e@ == message@,
    {
        DiagnosticDocumentError(message)
    }

    /// What went wrong.
    pub fn as_str(&self) -> (s: &str)
        ensures
            s@ == self@,
    {
        self.0.as_str()
    }
}

/// The next thing an emission asks of its caller.
#[derive(Debug)]
pub enum EmitAction {
    /// Write these bytes to the stream and flush it, then `resume` with how it went.
    Write {
        /// The stream to write to.
        channel: Channel,
        /// The bytes to write.
        bytes: Vec<u8>,
    },
    /// The emission is over: `Ok(false)` only for a `NoMatch` handoff, `Err`
    /// for a final-write failure whose status replaces the run's own.
    Finish(Result<bool, RunError>),
}

/// The modes whose failure is a stdout document rather than stderr prose.
pub open spec fn document_mode(mode: Representation) -> bool {
    mode == Representation::Json || mode == Representation::Yaml || mode == Representation::Csv
        || mode == Representation::Ndjson
}

/// Whether a failure under `mode` is a stdout document rather than stderr prose.
pub fn carries_diagnostic_document(output_mode: Representation) -> (b: bool)
    ensures
        b == document_mode(output_mode),
{
    match output_mode {
        Representation::Json | Representation::Yaml | Representation::Csv | Representation::Ndjson => true,
        _ => false,
    }
}

/// Whether the run's warnings are stdout entries: only under `ndjson`, and
/// never for a `NoMatch` handoff.
pub fn carries_warning_entries(result: &DispatchResult, output_mode: Representation) -> (b: bool)
    ensures
        b == (output_mode == Representation::Ndjson && !(result is NoMatch)),
{
    output_mode.is_stream() && !matches!(result, DispatchResult::NoMatch)
}

/// Whether the framework has already put the run's warnings on stdout: as
/// `ndjson` entries, or inside the one array an incremental command's `json`
/// or `yaml` run writes. Nothing renders them to stderr then.
pub fn warnings_delivered_on_stdout(result: &DispatchResult, output_mode: Representation) -> (b: bool)
    ensures
        b == ((output_mode == Representation::Ndjson && !(result is NoMatch))
            || (result matches DispatchResult::Handled(o) && o.warnings_included)),
{
    carries_warning_entries(result, output_mode) || match result {
        DispatchResult::Handled(output) => output.warnings_included(),
        _ => false,
    }
}

/// The bytes of `warning_entries` (each one rendered entry) to write to
/// stdout, when the run carries warning entries and there are any.
pub fn emit_warning_entries(
    result: &DispatchResult,
    warning_entries: Vec<Vec<u8>>,
    output_mode: Representation,
) -> (bytes: Option<Vec<u8>>)
    ensures
        match bytes {
            Some(b) => output_mode == Representation::Ndjson && !(result is NoMatch)
                && warning_entries@.len() > 0
                && b@ == warning_entries@.map_values(|e: Vec<u8>| e@).flatten(),
            None => !(output_mode == Representation::Ndjson && !(result is NoMatch))
                || warning_entries@.len() == 0,
        },
{
    if !carries_warning_entries(result, output_mode) || warning_entries.len() == 0 {
        return None;
    }
    let ghost views = warning_entries@.map_values(|e: Vec<u8>| e@);
    let mut out: Vec<u8> = Vec::new();
    let mut i: usize = 0;
    while i < warning_entries.len()
        invariant
            i <= warning_entries@.len(),
            views == warning_entries@.map_values(|e: Vec<u8>| e@),
            out@ == views.take(i as int).flatten(),
        decreases warning_entries@.len() - i,
    {
        let entry = &warning_entries[i];
        let ghost base = out@;
        let mut j: usize = 0;
        while j < entry.len()
            invariant
                j <= entry@.len(),
                out@ == base + entry@.take(j as int),
            decreases entry@.len() - j,
        {
            out.push(entry[j]);
            proof { assert(out@ =~= base + entry@.take(j + 1)); }
            j = j + 1;
        }
        proof {
            assert(entry@.take(entry@.len() as int) =~= entry@);
            assert(views.take(i + 1) =~= views.take(i as int).push(views[i as int]));
            views.take(i as int).lemma_flatten_push(views[i as int]);
        }
        i = i + 1;
    }
    proof {
        assert(views.take(warning_entries@.len() as int) =~= views);
    }
    Some(out)
}

/// What a write of the warning entries comes to: a failure is a final-write
/// failure of text on stdout, unless it is a broken pipe.
pub fn warning_entries_written(status: Result<(), IoFailure>) -> (r: Result<(), RunError>)
    ensures
        match status {
            Ok(()) => r is Ok,
            Err(f) => if f.kind == IoErrorKind::BrokenPipe {
                r is Ok
            } else {
                r matches Err(e) && e.kind == RunErrorKind::FinalWrite(OutputKind::Text)
                    && e.message@ == "Error writing stdout: "@ + f.message@ && e.source == Some(f)
            },
        },
{
    match status {
        Ok(()) => Ok(()),
        Err(f) => {
            if f.kind == IoErrorKind::BrokenPipe {
                Ok(())
            } else {
                Err(final_write_error("Error writing stdout: ", OutputKind::Text, f))
            }
        },
    }
}

/// What an emission is waiting to hear about.
pub enum Awaiting {
    /// The handler's text on stdout.
    Text,
    /// Binary bytes on stdout.
    Binary,
    /// An artifact's bytes on stdout, with the report still to write.
    ArtifactBytes { report: Option<Seq<char>> },
    /// An artifact's report.
    ArtifactReport,
    /// A failure's prose or own bytes on stderr, with the document still to write.
    Prose { document: Option<Seq<u8>> },
    /// A failure's document on stdout.
    Document,
    /// The line reporting a final-write failure on stderr.
    FailureLine { kind: RunErrorKind, message: Seq<char>, source: Option<IoFailure> },
    /// Nothing: the emission has finished.
    Done,
}

enum Stage {
    Text,
    Binary,
    ArtifactBytes { report: Option<String> },
    ArtifactReport,
    Prose { document: Option<Vec<u8>> },
    Document,
    FailureLine { error: RunError },
    Done,
}

/// An emission in progress.
pub struct Emission {
    stage: Stage,
}

/// The UTF-8 bytes of a text followed by a line feed.
pub open spec fn line_bytes(text: Seq<char>) -> Seq<u8> {
    vstd::utf8::encode_utf8(text) + seq![10u8]
}

/// The action writes exactly `bytes` to `channel`.
pub open spec fn writes(action: EmitAction, channel: Channel, bytes: Seq<u8>) -> bool {
    action matches EmitAction::Write { channel: c, bytes: b } && c == channel && b@ == bytes
}

/// The action finishes the emission with `Ok(handled)`.
pub open spec fn finishes_ok(action: EmitAction, handled: bool) -> bool {
    action matches EmitAction::Finish(r) && r == Ok::<bool, RunError>(handled)
}

/// A report that is present and not empty.
pub open spec fn nonempty_report(report: Option<Seq<char>>) -> bool {
    report matches Some(r) && r.len() > 0
}

/// The report text an artifact run carries, as a character sequence.
pub open spec fn report_view(run: ArtifactRun) -> Option<Seq<char>> {
    match run.report {
        Some(r) => Some(r@),
        None => None,
    }
}

/// The document the caller rendered, or nothing.
pub open spec fn document_bytes(document: Option<Vec<u8>>) -> Seq<u8> {
    match document {
        Some(d) => d@,
        None => seq![],
    }
}

/// How an emission starts for `result` under `mode`, given the rendered
/// diagnostic document of a failure (used only under a document mode).
pub open spec fn starts_as(
    result: DispatchResult,
    mode: Representation,
    document: Option<Vec<u8>>,
    awaiting: Awaiting,
    action: EmitAction,
) -> bool {
    match result {
        DispatchResult::Handled(o) => if o.text@.len() == 0 {
            awaiting is Done && finishes_ok(action, true)
        } else {
            awaiting is Text && writes(action, Channel::Stdout, line_bytes(o.text@))
        },
        DispatchResult::Binary(bytes, _) => awaiting is Binary && writes(action, Channel::Stdout, bytes@),
        DispatchResult::Artifact(run) => if run.receipt.destination is Stdout {
            awaiting == (Awaiting::ArtifactBytes { report: report_view(run) })
                && writes(action, Channel::Stdout, run.bytes@)
        } else if nonempty_report(report_view(run)) {
            awaiting is ArtifactReport
                && writes(action, Channel::Stdout, line_bytes(report_view(run)->0))
        } else {
            awaiting is Done && finishes_ok(action, true)
        },
        DispatchResult::Silent => awaiting is Done && finishes_ok(action, true),
        DispatchResult::NoMatch => awaiting is Done && finishes_ok(action, false),
        DispatchResult::Error(e) => if e.kind == RunErrorKind::App || e.kind == RunErrorKind::External {
            awaiting == (Awaiting::Prose {
                document: if document_mode(mode) { Some(document_bytes(document)) } else { None },
            }) && writes(action, Channel::Stderr, vstd::utf8::encode_utf8(e.message@))
        } else if document_mode(mode) {
            awaiting is Document && writes(action, Channel::Stdout, document_bytes(document))
        } else {
            awaiting == (Awaiting::Prose { document: None })
                && writes(action, Channel::Stderr, line_bytes(e.message@))
        },
    }
}

/// A failed write that becomes a final-write failure of `kind` with the
/// message `prefix` and the I/O failure's message: its line goes to stderr
/// and the emission then ends in it.
pub open spec fn reports_failure(
    failure: IoFailure,
    prefix: Seq<char>,
    kind: OutputKind,
    awaiting: Awaiting,
    action: EmitAction,
) -> bool {
    &&& awaiting == (Awaiting::FailureLine {
        kind: RunErrorKind::FinalWrite(kind),
        message: prefix + failure.message@,
        source: Some(failure),
    })
    &&& writes(action, Channel::Stderr, line_bytes(prefix + failure.message@))
}

/// How an emission goes on from `before` once the caller reports `status`.
pub open spec fn continues_as(
    before: Awaiting,
    status: Result<(), IoFailure>,
    awaiting: Awaiting,
    action: EmitAction,
) -> bool {
    match before {
        Awaiting::Text => match status {
            Ok(()) => awaiting is Done && finishes_ok(action, true),
            Err(f) => if f.kind == IoErrorKind::BrokenPipe {
                awaiting is Done && finishes_ok(action, true)
            } else {
                reports_failure(f, "Error writing stdout: "@, OutputKind::Text, awaiting, action)
            },
        },
        Awaiting::Binary => match status {
            Ok(()) => awaiting is Done && finishes_ok(action, true),
            Err(f) => reports_failure(f, "Error writing binary stdout: "@, OutputKind::Binary, awaiting, action),
        },
        Awaiting::ArtifactBytes { report } => match status {
            Ok(()) => if nonempty_report(report) {
                awaiting is ArtifactReport && writes(action, Channel::Stderr, line_bytes(report->0))
            } else {
                awaiting is Done && finishes_ok(action, true)
            },
            Err(f) => reports_failure(f, "Error writing artifact stdout: "@, OutputKind::Artifact, awaiting, action),
        },
        Awaiting::ArtifactReport => match status {
            Ok(()) => awaiting is Done && finishes_ok(action, true),
            Err(f) => reports_failure(f, "Error writing artifact report: "@, OutputKind::Artifact, awaiting, action),
        },
        Awaiting::Prose { document } => match status {
            Ok(()) => match document {
                Some(d) => awaiting is Document && writes(action, Channel::Stdout, d),
                None => awaiting is Done && finishes_ok(action, true),
            },
            Err(f) => reports_failure(f, "Error writing stderr: "@, OutputKind::Text, awaiting, action),
        },
        Awaiting::Document => match status {
            Ok(()) => awaiting is Done && finishes_ok(action, true),
            Err(f) => if f.kind == IoErrorKind::BrokenPipe {
                awaiting is Done && finishes_ok(action, true)
            } else {
                reports_failure(f, "Error writing stdout: "@, OutputKind::Text, awaiting, action)
            },
        },
        Awaiting::FailureLine { kind, message, source } => {
            &&& awaiting is Done
            &&& action matches EmitAction::Finish(r) && r matches Err(e) && e.kind == kind
                && e.message@ == message && e.source == source
        },
        Awaiting::Done => false,
    }
}

/// The UTF-8 bytes of a string.
fn bytes_of(s: &str) -> (b: Vec<u8>)
    ensures
        b@ == vstd::utf8::encode_utf8(s@),
{
    let raw = s.as_bytes();
    let mut out: Vec<u8> = Vec::new();
    let mut i: usize = 0;
    while i < raw.len()
        invariant
            i <= raw@.len(),
            out@ == raw@.take(i as int),
        decreases raw@.len() - i,
    {
        out.push(raw[i]);
        proof { assert(out@ =~= raw@.take(i + 1)); }
        i = i + 1;
    }
    proof { assert(raw@.take(raw@.len() as int) =~= raw@); }
    out
}

/// The UTF-8 bytes of a string followed by a line feed.
fn line_of(s: &str) -> (b: Vec<u8>)
    ensures
        b@ == line_bytes(s@),
{
    let mut b = bytes_of(s);
    b.push(10u8);
    b
}

impl Emission {
    /// What the emission is waiting to hear about.
    pub closed spec fn awaiting(&self) -> Awaiting {
        match self.stage {
            Stage::Text => Awaiting::Text,
            Stage::Binary => Awaiting::Binary,
            Stage::ArtifactBytes { report } => Awaiting::ArtifactBytes {
                report: match report {
                    Some(r) => Some(r@),
                    None => None,
                },
            },
            Stage::ArtifactReport => Awaiting::ArtifactReport,
            Stage::Prose { document } => Awaiting::Prose {
                document: match document {
                    Some(d) => Some(d@),
                    None => None,
                },
            },
            Stage::Document => Awaiting::Document,
            Stage::FailureLine { error } => Awaiting::FailureLine {
                kind: error.kind,
                message: error.message@,
                source: error.source,
            },
            Stage::Done => Awaiting::Done,
        }
    }

    fn start_artifact(run: ArtifactRun) -> (r: (Emission, EmitAction))
        ensures
            starts_as(DispatchResult::Artifact(run), Representation::Human, None, r.0.awaiting(), r.1),
    {
        let to_stdout = run.destination().is_stdout();
        if to_stdout {
            (Emission { stage: Stage::ArtifactBytes { report: run.report } },
             EmitAction::Write { channel: Channel::Stdout, bytes: run.bytes })
        } else {
            match run.report {
                Some(report) => {
                    if report.as_str().is_empty() {
                        (Emission { stage: Stage::Done }, EmitAction::Finish(Ok(true)))
                    } else {
                        let bytes = line_of(report.as_str());
                        (Emission { stage: Stage::ArtifactReport },
                         EmitAction::Write { channel: Channel::Stdout, bytes })
                    }
                },
                None => (Emission { stage: Stage::Done }, EmitAction::Finish(Ok(true))),
            }
        }
    }

    /// A failed write that becomes a final-write failure: report it on stderr.
    fn report(prefix: &str, kind: OutputKind, failure: IoFailure) -> (r: (Emission, EmitAction))
        ensures
            reports_failure(failure, prefix@, kind, r.0.awaiting(), r.1),
    {
        let error = final_write_error(prefix, kind, failure);
        let bytes = line_of(error.as_str());
        (Emission { stage: Stage::FailureLine { error } }, EmitAction::Write { channel: Channel::Stderr, bytes })
    }

    /// Go on from the write the emission asked for, given how it went.
    pub fn resume(self, status: Result<(), IoFailure>) -> (r: (Emission, EmitAction))
        requires
            !(self.awaiting() is Done),
        ensures
            continues_as(self.awaiting(), status, r.0.awaiting(), r.1),
    {
        let done = Emission { stage: Stage::Done };
        match self.stage {
            Stage::Text => match status {
                Ok(()) => (done, EmitAction::Finish(Ok(true))),
                Err(f) => if f.kind == IoErrorKind::BrokenPipe {
                    (done, EmitAction::Finish(Ok(true)))
                } else {
                    Self::report("Error writing stdout: ", OutputKind::Text, f)
                },
            },
            Stage::Binary => match status {
                Ok(()) => (done, EmitAction::Finish(Ok(true))),
                Err(f) => Self::report("Error writing binary stdout: ", OutputKind::Binary, f),
            },
            Stage::ArtifactBytes { report } => match status {
                Ok(()) => match report {
                    Some(text) => if text.as_str().is_empty() {
                        (done, EmitAction::Finish(Ok(true)))
                    } else {
                        let bytes = line_of(text.as_str());
                        (Emission { stage: Stage::ArtifactReport },
                         EmitAction::Write { channel: Channel::Stderr, bytes })
                    },
                    None => (done, EmitAction::Finish(Ok(true))),
                },
                Err(f) => Self::report("Error writing artifact stdout: ", OutputKind::Artifact, f),
            },
            Stage::ArtifactReport => match status {
                Ok(()) => (done, EmitAction::Finish(Ok(true))),
                Err(f) => Self::report("Error writing artifact report: ", OutputKind::Artifact, f),
            },
            Stage::Prose { document } => match status {
                Ok(()) => match document {
                    Some(bytes) => (Emission { stage: Stage::Document },
                        EmitAction::Write { channel: Channel::Stdout, bytes }),
                    None => (done, EmitAction::Finish(Ok(true))),
                },
                Err(f) => Self::report("Error writing stderr: ", OutputKind::Text, f),
            },
            Stage::Document => match status {
                Ok(()) => (done, EmitAction::Finish(Ok(true))),
                Err(f) => if f.kind == IoErrorKind::BrokenPipe {
                    (done, EmitAction::Finish(Ok(true)))
                } else {
                    Self::report("Error writing stdout: ", OutputKind::Text, f)
                },
            },
            Stage::FailureLine { error } => (done, EmitAction::Finish(Err(error))),
            Stage::Done => (done, EmitAction::Finish(Ok(true))),
        }
    }
}

/// Begin emitting a completed run: `result` under `output_mode`. `document` is the
/// failure's rendered diagnostic document, written to stdout under the
/// document modes (nothing is written there when it is `None`).
pub fn emit_run_result(result: DispatchResult, output_mode: Representation, document: Option<Vec<u8>>)
    -> (r: (Emission, EmitAction))
    ensures
        starts_as(result, output_mode, document, r.0.awaiting(), r.1),
{
    match result {
        DispatchResult::Handled(output) => {
            if output.is_empty() {
                (Emission { stage: Stage::Done }, EmitAction::Finish(Ok(true)))
            } else {
                let bytes = line_of(output.as_str());
                (Emission { stage: Stage::Text }, EmitAction::Write { channel: Channel::Stdout, bytes })
            }
        },
        DispatchResult::Binary(bytes, _) => {
            (Emission { stage: Stage::Binary }, EmitAction::Write { channel: Channel::Stdout, bytes })
        },
        DispatchResult::Artifact(run) => Emission::start_artifact(run),
        DispatchResult::Silent => (Emission { stage: Stage::Done }, EmitAction::Finish(Ok(true))),
        DispatchResult::NoMatch => (Emission { stage: Stage::Done }, EmitAction::Finish(Ok(false))),
        DispatchResult::Error(error) => {
            let doc = match document {
                Some(d) => d,
                None => Vec::new(),
            };
            if error.writes_diagnostic_verbatim() {
                let bytes = bytes_of(error.as_str());
                let pending = if carries_diagnostic_document(output_mode) { Some(doc) } else { None };
                (Emission { stage: Stage::Prose { document: pending } },
                 EmitAction::Write { channel: Channel::Stderr, bytes })
            } else if carries_diagnostic_document(output_mode) {
                (Emission { stage: Stage::Document }, EmitAction::Write { channel: Channel::Stdout, bytes: doc })
            } else {
                let bytes = line_of(error.as_str());
                (Emission { stage: Stage::Prose { document: None } },
                 EmitAction::Write { channel: Channel::Stderr, bytes })
            }
        },
    }
}

/// A `NoMatch` handoff writes nothing and answers `Ok(false)`.
pub proof fn law_no_match_writes_nothing(
    mode: Representation,
    document: Option<Vec<u8>>,
    awaiting: Awaiting,
    action: EmitAction,
)
    requires
        starts_as(DispatchResult::NoMatch, mode, document, awaiting, action),
    ensures
        finishes_ok(action, false),
        awaiting is Done,
{
}

/// Under a human representation, a failure that owns no bytes of its own is
/// prose on stderr: the first write is its line on stderr, and once that
/// line is written the run has been handled, with nothing on stdout.
pub proof fn law_human_failure_is_stderr_prose(
    error: RunError,
    mode: Representation,
    document: Option<Vec<u8>>,
    awaiting: Awaiting,
    action: EmitAction,
    next: Awaiting,
    next_action: EmitAction,
)
    requires
        !document_mode(mode),
        error.kind != RunErrorKind::App,
        error.kind != RunErrorKind::External,
        starts_as(DispatchResult::Error(error), mode, document, awaiting, action),
        continues_as(awaiting, Ok(()), next, next_action),
    ensures
        writes(action, Channel::Stderr, line_bytes(error.message@)),
        finishes_ok(next_action, true),
{
}

/// Under a document mode, a failure that owns no bytes of its own is the
/// stdout document and nothing on stderr: the first write is the document on
/// stdout, and once it is written, or its reader has left, the run has been
/// handled.
pub proof fn law_document_failure_is_stdout_document(
    error: RunError,
    mode: Representation,
    document: Option<Vec<u8>>,
    awaiting: Awaiting,
    action: EmitAction,
    status: Result<(), IoFailure>,
    next: Awaiting,
    next_action: EmitAction,
)
    requires
        document_mode(mode),
        error.kind != RunErrorKind::App,
        error.kind != RunErrorKind::External,
        status matches Err(f) ==> f.kind == IoErrorKind::BrokenPipe,
        starts_as(DispatchResult::Error(error), mode, document, awaiting, action),
        continues_as(awaiting, status, next, next_action),
    ensures
        writes(action, Channel::Stdout, document_bytes(document)),
        finishes_ok(next_action, true),
{
}

/// Text whose reader left (a broken pipe) is a successful early end, not a
/// failure: the run answers `Ok(true)` and writes nothing more.
pub proof fn law_text_broken_pipe_is_success(
    output: RunOutput,
    mode: Representation,
    awaiting: Awaiting,
    action: EmitAction,
    failure: IoFailure,
    next: Awaiting,
    next_action: EmitAction,
)
    requires
        output.text@.len() > 0,
        failure.kind == IoErrorKind::BrokenPipe,
        starts_as(DispatchResult::Handled(output), mode, None, awaiting, action),
        continues_as(awaiting, Err(failure), next, next_action),
    ensures
        writes(action, Channel::Stdout, line_bytes(output.text@)),
        finishes_ok(next_action, true),
{
}

/// A failed write of binary bytes is always a final-write failure that keeps
/// the binary payload kind and the I/O failure, even for a broken pipe; its
/// line goes to stderr, and the emission ends in that error.
pub proof fn law_binary_failure_keeps_kind(
    bytes: Vec<u8>,
    name: String,
    mode: Representation,
    awaiting: Awaiting,
    action: EmitAction,
    failure: IoFailure,
    next: Awaiting,
    next_action: EmitAction,
    last: Awaiting,
    last_action: EmitAction,
    line_status: Result<(), IoFailure>,
)
    requires
        starts_as(DispatchResult::Binary(bytes, name), mode, None, awaiting, action),
        continues_as(awaiting, Err(failure), next, next_action),
        continues_as(next, line_status, last, last_action),
    ensures
        next_action matches EmitAction::Write { channel: Channel::Stderr, .. },
        last_action matches EmitAction::Finish(r) && r matches Err(e)
            && e.kind == RunErrorKind::FinalWrite(OutputKind::Binary) && e.source == Some(failure),
{
}

} // verus!
