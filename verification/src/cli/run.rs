//! How a run is resolved before its handler runs: the representation, the
//! color policy, where output goes, and whether it is paged.

use vstd::prelude::*;

use crate::cli::pager::{pager_command, Pager, PagerOutcome};
use crate::cli::representation::{
    term_color_policy, term_output_representation, ColorPolicy, Representation, TermColor, TermSettings,
};

verus! {

/// The facts about the output destination the run's decisions read.
#[derive(Debug, Clone, Copy, PartialEq, Eq, Structural)]
pub struct OutputTarget {
    /// Whether stdout is a terminal.
    pub stdout_is_terminal: bool,
    /// Whether stdout can show color.
    pub stdout_color_capability: bool,
}

/// The destination a run writes to: a named output file is never a
/// terminal and shows no color, so `auto` resolves to plain text in it (an
/// explicit `--color always` still writes escapes there).
pub fn file_destination(target: OutputTarget, writes_to_a_file: bool) -> (t: OutputTarget)
    ensures
        writes_to_a_file ==> !t.stdout_is_terminal && !t.stdout_color_capability,
        !writes_to_a_file ==> t == target,
{
    if writes_to_a_file {
        OutputTarget { stdout_is_terminal: false, stdout_color_capability: false }
    } else {
        target
    }
}

/// The color policy a run resolves to.
pub open spec fn color_policy_of(
    typed: Option<ColorPolicy>,
    named: ColorPolicy,
    term: Option<TermSettings>,
    no_color_set: bool,
) -> ColorPolicy {
    match typed {
        Some(p) => p,
        None => if named != ColorPolicy::Auto {
            named
        } else {
            match term {
                Some(t) => match t.color {
                    Some(c) => if term_color_policy(c) == ColorPolicy::Always && no_color_set {
                        ColorPolicy::Never
                    } else {
                        term_color_policy(c)
                    },
                    None => ColorPolicy::Auto,
                },
                None => ColorPolicy::Auto,
            }
        },
    }
}

/// The run's color policy, in precedence order: an explicit `--color`, the
/// policy the caller named (when not `auto`), then the configured
/// `[term] color`, which `NO_COLOR` (`no_color_set`) turns from `always`
/// to `never`; `auto` when none of them says.
pub fn resolve_color_policy(
    typed: Option<ColorPolicy>,
    named: ColorPolicy,
    term: Option<TermSettings>,
    no_color_set: bool,
) -> (p: ColorPolicy)
    ensures
        p == color_policy_of(typed, named, term, no_color_set),
{
    if let Some(policy) = typed {
        return policy;
    }
    if named != ColorPolicy::Auto {
        return named;
    }
    match term {
        Some(t) => match t.color {
            Some(c) => {
                let policy = ColorPolicy::from(c);
                if policy == ColorPolicy::Always && no_color_set {
                    ColorPolicy::Never
                } else {
                    policy
                }
            },
            None => ColorPolicy::Auto,
        },
        None => ColorPolicy::Auto,
    }
}

/// The representation a run resolves to.
pub open spec fn representation_of(
    typed: Option<Representation>,
    term: Option<TermSettings>,
    fallback: Representation,
) -> Representation {
    match typed {
        Some(r) => r,
        None => match term {
            Some(t) => match t.output {
                Some(o) => term_output_representation(o),
                None => fallback,
            },
            None => fallback,
        },
    }
}

/// No `[term] output` is configured: no `[term]` section, or one that
/// names no output.
pub open spec fn names_no_output(term: Option<TermSettings>) -> bool {
    match term {
        Some(t) => t.output is None,
        None => true,
    }
}

/// The representation a run resolves to: a typed `--output` always wins;
/// without one, a configured `[term] output` decides; with neither, the
/// application's fallback does, whether or not a `[term]` section is there.
/// The `[term] color` setting never changes it.
pub proof fn law_representation_precedence(
    typed: Option<Representation>,
    term: Option<TermSettings>,
    fallback: Representation,
    color: Option<TermColor>,
)
    ensures
        typed matches Some(r) ==> representation_of(typed, term, fallback) == r,
        typed is None && names_no_output(term) ==> representation_of(typed, term, fallback) == fallback,
        typed is None && term is Some && term->0.output is Some ==> representation_of(typed, term, fallback)
            == term_output_representation(term->0.output->0),
        term matches Some(t) ==> representation_of(typed, term, fallback) == representation_of(
            typed,
            Some(TermSettings { output: t.output, color }),
            fallback,
        ),
{
}

/// The run's representation: an explicit `--output`, else the configured
/// `[term] output`, else `fallback`.
pub fn resolve_representation(
    typed: Option<Representation>,
    term: Option<TermSettings>,
    fallback: Representation,
) -> (r: Representation)
    ensures
        r == representation_of(typed, term, fallback),
        typed matches Some(t) ==> r == t,
        typed is None && names_no_output(term) ==> r == fallback,
{
    proof {
        law_representation_precedence(typed, term, fallback, None);
    }
    match typed {
        Some(r) => r,
        None => match term {
            Some(t) => match t.output {
                Some(o) => Representation::from(o),
                None => fallback,
            },
            None => fallback,
        },
    }
}

/// A run may page: its output goes to a terminal, in the human
/// representation, and `--no-pager` was not given.
pub open spec fn may_page(target: OutputTarget, output_mode: Representation, suppressed: bool) -> bool {
    target.stdout_is_terminal && output_mode == Representation::Human && !suppressed
}

/// The pager for a run's output: none unless the output goes to a terminal
/// in the human representation and paging was not suppressed; then the one
/// the pager variables' `values` name (see `Pager::resolve_from`).
pub fn pager_for_run(
    target: OutputTarget,
    output_mode: Representation,
    suppressed: bool,
    values: Vec<Option<String>>,
) -> (p: Option<Pager>)
    ensures
        !may_page(target, output_mode, suppressed) ==> p is None,
        may_page(target, output_mode, suppressed) ==> match p {
            Some(pager) => pager_command(values@) == Some(pager.command_text()),
            None => pager_command(values@) is None,
        },
{
    if !target.stdout_is_terminal || output_mode != Representation::Human || suppressed {
        return None;
    }
    Pager::resolve_from(values)
}

/// What a run was resolved to before its handler ran.
#[derive(Debug)]
pub struct RunResolution {
    /// The representation it renders in.
    pub representation: Representation,
    /// Whether its human text carries escape sequences.
    pub color_policy: ColorPolicy,
    /// Where its output goes.
    pub target: OutputTarget,
    /// The pager its output goes through, if any.
    pub pager: Option<Pager>,
}

/// What the parsed command line and the command's configuration say about a run.
#[derive(Debug, Clone, Copy)]
pub struct RunRequest {
    /// The representation `--output` named, when it was typed.
    pub typed_output: Option<Representation>,
    /// The policy `--color` named, when it was typed.
    pub typed_color: Option<ColorPolicy>,
    /// Whether `--output-file` named a file.
    pub writes_to_a_file: bool,
    /// Whether `--no-pager` was given.
    pub no_pager: bool,
    /// Whether the command marked its output pageable.
    pub pageable: bool,
    /// Whether the command emits events incrementally.
    pub emits_events: bool,
}

/// A run is paged: its command is pageable and emits no events, and it may
/// page where its output goes.
pub open spec fn run_pages(request: RunRequest, target: OutputTarget, representation: Representation) -> bool {
    &&& request.pageable
    &&& !request.emits_events
    &&& may_page(file_destination_spec(target, request.writes_to_a_file), representation, request.no_pager)
}

/// Where output goes once a named file is taken into account.
pub open spec fn file_destination_spec(target: OutputTarget, writes_to_a_file: bool) -> OutputTarget {
    if writes_to_a_file {
        OutputTarget { stdout_is_terminal: false, stdout_color_capability: false }
    } else {
        target
    }
}

/// Resolve a run: its representation (`--output`, `[term] output`, then
/// `fallback`), its color policy, its destination, and its pager, which it
/// has only when its command is pageable and emits no events, its output
/// is human text on a terminal (not a named file), paging was not
/// suppressed, and the pager variables' `values` name a command.
pub fn resolve_run(
    request: RunRequest,
    term: Option<TermSettings>,
    named_color: ColorPolicy,
    fallback: Representation,
    target: OutputTarget,
    no_color_set: bool,
    pager_values: Vec<Option<String>>,
) -> (r: RunResolution)
    ensures
        r.representation == representation_of(request.typed_output, term, fallback),
        r.color_policy == color_policy_of(request.typed_color, named_color, term, no_color_set),
        r.target == file_destination_spec(target, request.writes_to_a_file),
        !run_pages(request, target, r.representation) ==> r.pager is None,
        run_pages(request, target, r.representation) ==> match r.pager {
            Some(pager) => pager_command(pager_values@) == Some(pager.command_text()),
            None => pager_command(pager_values@) is None,
        },
{
    let representation = resolve_representation(request.typed_output, term, fallback);
    let target = file_destination(target, request.writes_to_a_file);
    let color_policy = resolve_color_policy(request.typed_color, named_color, term, no_color_set);
    let pager = if request.pageable && !request.emits_events {
        pager_for_run(target, representation, request.no_pager, pager_values)
    } else {
        None
    };
    RunResolution { representation, color_policy, target, pager }
}

/// Whether a pager took the output: it read it, or its reader left early.
/// A pager that could not start leaves the output for stdout.
pub fn delivered_by_pager(outcome: PagerOutcome) -> (b: bool)
    ensures
        b == (outcome != PagerOutcome::CouldNotStart),
{
    match outcome {
        PagerOutcome::Paged | PagerOutcome::ReaderLeft => true,
        PagerOutcome::CouldNotStart => false,
    }
}

/// Nothing is paged unless the run is human output on a terminal (not a
/// named file) for a pageable command that emits no events, paging was not
/// suppressed, and the environment names a pager.
pub proof fn law_paging_needs_every_condition(
    request: RunRequest,
    target: OutputTarget,
    representation: Representation,
    pager_values: Seq<Option<String>>,
    pager: Option<Pager>,
)
    requires
        !run_pages(request, target, representation) ==> pager is None,
        run_pages(request, target, representation) ==> match pager {
            Some(p) => pager_command(pager_values) == Some(p.command_text()),
            None => pager_command(pager_values) is None,
        },
        pager is Some,
    ensures
        request.pageable,
        !request.emits_events,
        !request.writes_to_a_file,
        target.stdout_is_terminal,
        representation == Representation::Human,
        !request.no_pager,
        pager_command(pager_values) is Some,
{
}

} // verus!
