//! The decisions of a dispatched run: which step a parsed command path
//! takes (the configuration command, no match, a failed pre-dispatch hook,
//! or the handler), how the handler's output is presented in the run's
//! mode, and where an emitted run's result is delivered. The caller
//! performs each step (runs the hook, writes the file, pages the text) and
//! hands back what came of it.

use vstd::prelude::*;

use crate::cli::dispatch::segment_texts;
use crate::cli::dispatch::{parse_failure_outcome, ParseFailureKind};
use crate::cli::handler::{DispatchResult, HookPhase, OutputKind, RunError, RunErrorKind};
use crate::setup::{setup_error_text, SetupError};
use crate::cli::representation::Representation;
use crate::text::{chars_equal, chars_of, concat, decimal, decimal_string, join, join_seq};

verus! {

broadcast use vstd::string::group_string_axioms;

/// The text of a hook's failure in the given phase.
pub open spec fn hook_error_text(phase: HookPhase, message: Seq<char>) -> Seq<char> {
    match phase {
        HookPhase::PreDispatch => "Error: hook error (pre-dispatch): "@ + message,
        HookPhase::PostDispatch => "Error: hook error (post-dispatch): "@ + message,
        HookPhase::PostOutput => "Error: hook error (post-output): "@ + message,
    }
}

/// The error a run ends in when a hook of `phase` fails with `message`.
pub fn hook_failure(phase: HookPhase, message: &str) -> (e: RunError)
    ensures
        e.message@ == hook_error_text(phase, message@),
        e.kind == RunErrorKind::Hook(phase),
        e.source is None,
{
    let text = match phase {
        HookPhase::PreDispatch => concat("Error: hook error (pre-dispatch): ", message),
        HookPhase::PostDispatch => concat("Error: hook error (post-dispatch): ", message),
        HookPhase::PostOutput => concat("Error: hook error (post-output): ", message),
    };
    RunError::new(text.as_str(), RunErrorKind::Hook(phase))
}

/// What came of a stage of a run before its handler.
#[derive(Debug)]
pub enum RunEvent {
    /// The checks of the command definition against the registrations.
    DefinitionChecked(Result<(), SetupError>),
    /// The check that the application's commands leave the `help` word
    /// free; the collision, if any.
    HelpWordChecked(Option<SetupError>),
    /// Parsing the command line: how it failed and clap's message, or
    /// nothing when it parsed. (A failure the help intercept rendered as a
    /// help page ends the run with that page and is not handed here.)
    Parsed(Option<(ParseFailureKind, String)>),
    /// Resolving the configuration; the error, if it failed.
    ConfigResolved(Option<RunError>),
}

/// The next stage of a run.
#[derive(Debug)]
pub enum RunNext {
    /// Check the `help` word.
    CheckHelpWord,
    /// Parse the command line.
    Parse,
    /// Resolve the configuration.
    ResolveConfig,
    /// Dispatch the parsed command (see `dispatch_step`).
    Dispatch,
    /// The run ends with this result.
    Finish(DispatchResult),
}

/// The stage after `event`: a failed definition check or a help-word
/// collision ends the run as a usage error reading as the setup error; a
/// parse failure ends it as `parse_failure_outcome` says; a failed
/// configuration ends it with that error; otherwise the run goes on, in the
/// order definition, help word, parse, configuration, dispatch.
pub fn run_after(event: RunEvent) -> (next: RunNext)
    ensures
        match event {
            RunEvent::DefinitionChecked(Ok(())) => next is CheckHelpWord,
            RunEvent::DefinitionChecked(Err(e)) => next matches RunNext::Finish(DispatchResult::Error(r))
                && r.kind == RunErrorKind::ClapUsage && r.message@ == setup_error_text(e) && r.source is None,
            RunEvent::HelpWordChecked(None) => next is Parse,
            RunEvent::HelpWordChecked(Some(e)) => next matches RunNext::Finish(DispatchResult::Error(r))
                && r.kind == RunErrorKind::ClapUsage && r.message@ == setup_error_text(e) && r.source is None,
            RunEvent::Parsed(None) => next is ResolveConfig,
            RunEvent::Parsed(Some((kind, message))) => next matches RunNext::Finish(d) && match kind {
                ParseFailureKind::Usage => d matches DispatchResult::Error(r) && r.kind == RunErrorKind::ClapUsage
                    && r.message@ == message@,
                ParseFailureKind::UnknownDefault => d matches DispatchResult::Error(r)
                    && r.kind == RunErrorKind::DefaultCommand && r.message@ == message@,
                ParseFailureKind::DisplayVersion => d matches DispatchResult::Handled(o) && o.text@ == message@,
                ParseFailureKind::DisplayHelp => d matches DispatchResult::Handled(o) && o.text@ == message@,
            },
            RunEvent::ConfigResolved(None) => next is Dispatch,
            RunEvent::ConfigResolved(Some(e)) => next matches RunNext::Finish(DispatchResult::Error(r)) && r == e,
        },
{
    match event {
        RunEvent::DefinitionChecked(Ok(())) => RunNext::CheckHelpWord,
        RunEvent::DefinitionChecked(Err(e)) => {
            let text = e.message();
            RunNext::Finish(DispatchResult::Error(RunError::new(text.as_str(), RunErrorKind::ClapUsage)))
        },
        RunEvent::HelpWordChecked(None) => RunNext::Parse,
        RunEvent::HelpWordChecked(Some(e)) => {
            let text = e.message();
            RunNext::Finish(DispatchResult::Error(RunError::new(text.as_str(), RunErrorKind::ClapUsage)))
        },
        RunEvent::Parsed(None) => RunNext::ResolveConfig,
        RunEvent::Parsed(Some((kind, message))) => RunNext::Finish(parse_failure_outcome(kind, message.as_str())),
        RunEvent::ConfigResolved(None) => RunNext::Dispatch,
        RunEvent::ConfigResolved(Some(e)) => RunNext::Finish(DispatchResult::Error(e)),
    }
}

/// What a dispatch does with a parsed command path.
#[derive(Debug)]
pub enum DispatchStep {
    /// Run the configuration command the framework installs.
    Config,
    /// No registered command has this path; the caller handles the
    /// arguments.
    NoMatch,
    /// The run fails before the handler runs.
    Fail(RunError),
    /// Run the registered handler.
    Dispatch,
}

/// The dotted form of a command path (`db.migrate`).
pub open spec fn dotted(path: Seq<String>) -> Seq<char> {
    join_seq(segment_texts(path), "."@)
}

/// Some registered command carries the name `name`.
pub open spec fn is_registered(registered: Seq<String>, name: Seq<char>) -> bool {
    exists|i: int| 0 <= i < registered.len() && registered[i]@ == name
}

/// The path asks for the installed configuration command.
pub open spec fn asks_config(path: Seq<String>, config_installed: bool) -> bool {
    config_installed && path.len() > 0 && path[0]@ == "config"@
}

/// The dotted form of a command path.
fn dotted_path(path: &Vec<String>) -> (d: Vec<char>)
    ensures
        d@ == dotted(path@),
{
    let mut parts: Vec<Vec<char>> = Vec::new();
    let mut i: usize = 0;
    while i < path.len()
        invariant
            i <= path@.len(),
            parts@.len() == i,
            parts@.map_values(|l: Vec<char>| l@) == segment_texts(path@.take(i as int)),
        decreases path@.len() - i,
    {
        let ghost before = parts@;
        let piece = chars_of(path[i].as_str());
        parts.push(piece);
        proof {
            let now = parts@.map_values(|l: Vec<char>| l@);
            assert forall|k: int| 0 <= k < i + 1 implies #[trigger] now[k]
                == segment_texts(path@.take(i + 1))[k] by {
                if k < i {
                    assert(parts@[k] == before[k]);
                    assert(before.map_values(|l: Vec<char>| l@)[k] == segment_texts(path@.take(i as int))[k]);
                } else {
                    assert(parts@[k] == piece);
                }
            }
            assert(now =~= segment_texts(path@.take(i + 1)));
        }
        i = i + 1;
    }
    proof {
        assert(path@.take(path@.len() as int) =~= path@);
    }
    join(&parts, &chars_of("."))
}

/// Whether some registered command carries the name `name`.
fn registered_name(registered: &Vec<String>, name: &Vec<char>) -> (b: bool)
    ensures
        b == is_registered(registered@, name@),
{
    let mut i: usize = 0;
    while i < registered.len()
        invariant
            i <= registered@.len(),
            forall|k: int| 0 <= k < i ==> registered@[k]@ != name@,
        decreases registered@.len() - i,
    {
        if chars_equal(&chars_of(registered[i].as_str()), name) {
            return true;
        }
        i = i + 1;
    }
    false
}

/// The step a dispatch takes for the command path `path` (the subcommand
/// names from the root down): the configuration command when it is
/// installed and the path starts at `config`; no match when the dotted
/// path is no registered command; a pre-dispatch failure when the
/// command's pre-dispatch hooks failed with a message (`pre_dispatch` is
/// their outcome, `Ok` for a command without them); else the handler.
pub fn dispatch_step(
    registered: &Vec<String>,
    path: &Vec<String>,
    config_installed: bool,
    pre_dispatch: Result<(), String>,
) -> (d: DispatchStep)
    ensures
        (d is Config) == asks_config(path@, config_installed),
        (d is NoMatch) == (!asks_config(path@, config_installed) && !is_registered(registered@, dotted(path@))),
        (d is Dispatch) == (!asks_config(path@, config_installed) && is_registered(registered@, dotted(path@))
            && pre_dispatch is Ok),
        d matches DispatchStep::Fail(e) ==> pre_dispatch matches Err(m) && e.message@
            == "Error: hook error (pre-dispatch): "@ + m@ && e.kind == RunErrorKind::Hook(HookPhase::PreDispatch)
            && e.source is None,
{
    if config_installed && path.len() > 0 && chars_equal(&chars_of(path[0].as_str()), &chars_of("config")) {
        return DispatchStep::Config;
    }
    let name = dotted_path(path);
    if !registered_name(registered, &name) {
        return DispatchStep::NoMatch;
    }
    match pre_dispatch {
        Ok(()) => DispatchStep::Dispatch,
        Err(m) => DispatchStep::Fail(hook_failure(HookPhase::PreDispatch, m.as_str())),
    }
}

/// The shape of a command's output once its post-output hooks have run.
#[derive(Debug, Clone, Copy, PartialEq, Eq, Structural)]
pub enum OutputShape {
    /// Rendered text.
    Text,
    /// Binary bytes.
    Binary,
    /// An artifact: bytes that choose their own destination.
    Artifact,
    /// Nothing to output.
    Silent,
}

/// Why a payload (binary bytes or an artifact) is refused.
#[derive(Debug, Clone, Copy, PartialEq, Eq, Structural)]
pub enum PayloadRefusal {
    /// The command emits events, so a payload can only have come from a
    /// post-output hook, which cannot hand one to an event stream.
    FromPostOutputHook,
    /// The run streams lines (`ndjson`), which cannot carry a payload.
    UnderStream,
    /// An exit status was declared on output that carries none (the status,
    /// and the kind of output).
    StatusWithoutCarrier(u8, OutputKind),
}

/// How a run's output is presented.
#[derive(Debug, Clone, Copy, PartialEq, Eq, Structural)]
pub enum Presentation {
    /// The output is refused and the run fails.
    Refuse(PayloadRefusal),
    /// The artifact goes on to its destination.
    CompleteArtifact,
    /// The text or bytes are written to the output file; the run then
    /// answers as handled with empty text, carrying the status.
    WriteToFile(OutputKind, u8),
    /// The run answers as handled with the rendered text, carrying the
    /// status.
    AnswerText(u8),
    /// The run answers as handled with empty text, carrying the status.
    AnswerEmpty(u8),
    /// The bytes are handed back as binary output.
    AnswerBinary,
}

/// A payload: binary bytes or an artifact.
pub open spec fn is_payload(kind: OutputShape) -> bool {
    kind == OutputShape::Binary || kind == OutputShape::Artifact
}

/// How output of shape `kind` and exit status `status` is presented in
/// mode `mode`, for a command that emits events or not, with an output file
/// named on the command line or not. The checks come in this order: a
/// payload from an event-emitting command, a payload in the line stream, a
/// status declared on an artifact; then the output file; then the answer.
pub open spec fn presentation_of(
    kind: OutputShape,
    status: u8,
    mode: Representation,
    emits_events: bool,
    to_file: bool,
) -> Presentation {
    if is_payload(kind) && emits_events {
        Presentation::Refuse(PayloadRefusal::FromPostOutputHook)
    } else if is_payload(kind) && mode == Representation::Ndjson {
        Presentation::Refuse(PayloadRefusal::UnderStream)
    } else if kind == OutputShape::Artifact {
        if status != 0 {
            Presentation::Refuse(PayloadRefusal::StatusWithoutCarrier(status, OutputKind::Artifact))
        } else {
            Presentation::CompleteArtifact
        }
    } else if to_file && kind == OutputShape::Text {
        Presentation::WriteToFile(OutputKind::Text, status)
    } else if to_file && kind == OutputShape::Binary {
        Presentation::WriteToFile(OutputKind::Binary, status)
    } else {
        match kind {
            OutputShape::Text => Presentation::AnswerText(status),
            OutputShape::Binary => if status != 0 {
                Presentation::Refuse(PayloadRefusal::StatusWithoutCarrier(status, OutputKind::Binary))
            } else {
                Presentation::AnswerBinary
            },
            _ => Presentation::AnswerEmpty(status),
        }
    }
}

/// How a run's output is presented: see `presentation_of`.
pub fn present_run_output(
    kind: OutputShape,
    status: u8,
    mode: Representation,
    emits_events: bool,
    to_file: bool,
) -> (p: Presentation)
    ensures
        p == presentation_of(kind, status, mode, emits_events, to_file),
        is_payload(kind) && mode == Representation::Ndjson ==> p is Refuse,
        !emits_events && mode != Representation::Ndjson && status != 0 && (kind == OutputShape::Artifact || (
        kind == OutputShape::Binary && !to_file)) ==> p is Refuse,
        kind == OutputShape::Text && to_file ==> p == Presentation::WriteToFile(OutputKind::Text, status),
        kind == OutputShape::Text && !to_file ==> p == Presentation::AnswerText(status),
{
    let payload = match kind {
        OutputShape::Binary => true,
        OutputShape::Artifact => true,
        _ => false,
    };
    if payload && emits_events {
        return Presentation::Refuse(PayloadRefusal::FromPostOutputHook);
    }
    if payload && mode.is_stream() {
        return Presentation::Refuse(PayloadRefusal::UnderStream);
    }
    match kind {
        OutputShape::Artifact => if status != 0 {
            Presentation::Refuse(PayloadRefusal::StatusWithoutCarrier(status, OutputKind::Artifact))
        } else {
            Presentation::CompleteArtifact
        },
        OutputShape::Text => if to_file {
            Presentation::WriteToFile(OutputKind::Text, status)
        } else {
            Presentation::AnswerText(status)
        },
        OutputShape::Binary => if to_file {
            Presentation::WriteToFile(OutputKind::Binary, status)
        } else if status != 0 {
            Presentation::Refuse(PayloadRefusal::StatusWithoutCarrier(status, OutputKind::Binary))
        } else {
            Presentation::AnswerBinary
        },
        OutputShape::Silent => Presentation::AnswerEmpty(status),
    }
}

/// A status declared on a handler's output: refused on a payload, whatever
/// the status, and dropped on other output.
pub fn declared_status_check(declared: Option<u8>, kind: OutputShape) -> (r: Result<(), PayloadRefusal>)
    ensures
        match declared {
            Some(s) => match kind {
                OutputShape::Binary => r == Err::<(), PayloadRefusal>(
                    PayloadRefusal::StatusWithoutCarrier(s, OutputKind::Binary),
                ),
                OutputShape::Artifact => r == Err::<(), PayloadRefusal>(
                    PayloadRefusal::StatusWithoutCarrier(s, OutputKind::Artifact),
                ),
                _ => r is Ok,
            },
            None => r is Ok,
        },
{
    match declared {
        Some(s) => match kind {
            OutputShape::Binary => Err(PayloadRefusal::StatusWithoutCarrier(s, OutputKind::Binary)),
            OutputShape::Artifact => Err(PayloadRefusal::StatusWithoutCarrier(s, OutputKind::Artifact)),
            _ => Ok(()),
        },
        None => Ok(()),
    }
}

/// The text of a refusal.
pub open spec fn refusal_text(r: PayloadRefusal) -> Seq<char> {
    match r {
        PayloadRefusal::FromPostOutputHook => "a post-output hook produced binary or artifact output for a command that emits events"@,
        PayloadRefusal::UnderStream => "binary or artifact output cannot be written to a line stream (ndjson)"@,
        PayloadRefusal::StatusWithoutCarrier(s, OutputKind::Artifact) => "exit status "@ + decimal(s as nat)
            + " was declared on artifact output"@,
        PayloadRefusal::StatusWithoutCarrier(s, _) => "exit status "@ + decimal(s as nat) + " was declared on binary output"@,
    }
}

/// The error a run ends in for a refused payload.
pub fn refusal_error(r: PayloadRefusal) -> (e: RunError)
    ensures
        e.message@ == refusal_text(r),
        e.kind == RunErrorKind::Render,
        e.source is None,
{
    match r {
        PayloadRefusal::FromPostOutputHook => RunError::new(
            "a post-output hook produced binary or artifact output for a command that emits events",
            RunErrorKind::Render,
        ),
        PayloadRefusal::UnderStream => RunError::new(
            "binary or artifact output cannot be written to a line stream (ndjson)",
            RunErrorKind::Render,
        ),
        PayloadRefusal::StatusWithoutCarrier(s, kind) => {
            let number = decimal_string(s as usize);
            let head = concat("exit status ", number.as_str());
            let text = match kind {
                OutputKind::Artifact => concat(head.as_str(), " was declared on artifact output"),
                _ => concat(head.as_str(), " was declared on binary output"),
            };
            RunError::new(text.as_str(), RunErrorKind::Render)
        },
    }
}

/// Where an emitted run's result goes.
#[derive(Debug, Clone, Copy, PartialEq, Eq, Structural)]
pub enum Delivery {
    /// The help page is written to the output file.
    HelpToFile,
    /// The text was handed to the pager.
    Paged,
    /// The result is emitted through the line stream's writer.
    Stream,
    /// The result is emitted to standard output.
    Stdout,
}

/// Where an emitted run's result goes: a help page with an output file
/// named goes to the file; else text the pager took is done; else the line
/// stream's writer for `ndjson`; else standard output.
pub fn delivery(help_page_to_file: bool, paged: bool, mode: Representation) -> (d: Delivery)
    ensures
        d == (if help_page_to_file {
            Delivery::HelpToFile
        } else if paged {
            Delivery::Paged
        } else if mode == Representation::Ndjson {
            Delivery::Stream
        } else {
            Delivery::Stdout
        }),
{
    if help_page_to_file {
        Delivery::HelpToFile
    } else if paged {
        Delivery::Paged
    } else if mode.is_stream() {
        Delivery::Stream
    } else {
        Delivery::Stdout
    }
}

/// The process's exit status: a failed final write's status first, else
/// the run's own, else success.
pub fn process_status(write_failure: Option<u8>, run_status: Option<u8>) -> (s: u8)
    ensures
        s == match write_failure {
            Some(f) => f,
            None => match run_status {
                Some(r) => r,
                None => 0u8,
            },
        },
{
    match write_failure {
        Some(f) => f,
        None => match run_status {
            Some(r) => r,
            None => 0,
        },
    }
}

} // verus!
