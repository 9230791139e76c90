//! A command's configuration: its handler, the template it renders with,
//! the steps that run on its output, and whether its output may be paged.

use vstd::prelude::*;

use crate::cli::handler::{ArtifactOutput, HookPhase, RunError, RunErrorKind};
use crate::cli::presentation::{hook_error_text, hook_failure};
use crate::cli::templates::{dots_to_slashes, TemplateAbsence, TemplateRef};

verus! {

broadcast use vstd::string::group_string_axioms;

/// How long a piped shell command may run before it is stopped, in seconds,
/// when no timeout is given.
pub const DEFAULT_PIPE_TIMEOUT_SECS: u64 = 30;

/// A step that runs on a command's rendered text once it is output.
#[derive(Debug, Clone, PartialEq, Eq)]
pub enum PostOutputStep {
    /// Send the text to a shell command; the output stays as it was.
    PipeTo {
        /// The shell command.
        command: String,
        /// How long it may run, in seconds.
        timeout_secs: u64,
    },
    /// Send the text through a shell command; what it prints replaces the text.
    PipeThrough {
        /// The shell command.
        command: String,
        /// How long it may run, in seconds.
        timeout_secs: u64,
    },
}

/// The hooks registered on a command: the steps that run on its rendered
/// output, in the order they were added.
#[derive(Debug, Clone)]
pub struct Hooks {
    /// The post-output steps, in order.
    pub post_output: Vec<PostOutputStep>,
}

impl Hooks {
    /// No hooks.
    pub fn new() -> (h: Self)
        ensures
            h.post_output@ == Seq::<PostOutputStep>::empty(),
    {
        Hooks { post_output: Vec::new() }
    }

    /// These hooks with `step` run after the ones already there.
    pub fn post_output(self, step: PostOutputStep) -> (h: Self)
        ensures
            h.post_output@ == self.post_output@.push(step),
    {
        let mut steps = self.post_output;
        steps.push(step);
        Hooks { post_output: steps }
    }
}

/// Rendered text: what the terminal shows and the same without styling.
#[derive(Debug, Clone)]
pub struct TextOutput {
    /// The text as it is shown, styling included.
    pub formatted: String,
    /// The text without styling.
    pub raw: String,
}

/// A command's output once it is rendered, as post-output steps see it.
#[derive(Debug, Clone)]
pub enum RenderedOutput {
    /// Rendered text.
    Text(TextOutput),
    /// Binary bytes and the file name they suggest.
    Binary(Vec<u8>, String),
    /// An artifact, before its destination is chosen.
    Artifact(ArtifactOutput),
    /// Nothing to output.
    Silent,
}

/// The text a post-output step's shell command reads: the unstyled text of
/// rendered text output; none for other output, on which the step does not
/// run its command.
pub fn step_input(output: &RenderedOutput) -> (input: Option<&str>)
    ensures
        match output {
            RenderedOutput::Text(t) => input matches Some(i) && i@ == t.raw@,
            _ => input is None,
        },
{
    match output {
        RenderedOutput::Text(t) => Some(t.raw.as_str()),
        _ => None,
    }
}

/// The output after a post-output step, given what came of its shell
/// command (what it printed, or why it failed) on the text of `step_input`.
/// Output that is not text passes through untouched, the command not having
/// run. On text, a failed command fails the run as a post-output hook
/// failure; `PipeTo` keeps the output as it was; `PipeThrough` makes what
/// the command printed the output, styled and unstyled alike.
pub fn output_after_step(step: &PostOutputStep, output: RenderedOutput, shell: Result<String, String>) -> (r: Result<
    RenderedOutput,
    RunError,
>)
    ensures
        !(output is Text) ==> r == Ok::<RenderedOutput, RunError>(output),
        output is Text ==> match shell {
            Err(m) => r matches Err(e) && e.message@ == hook_error_text(HookPhase::PostOutput, m@) && e.kind
                == RunErrorKind::Hook(HookPhase::PostOutput) && e.source is None,
            Ok(p) => match step {
                PostOutputStep::PipeTo { .. } => r == Ok::<RenderedOutput, RunError>(output),
                PostOutputStep::PipeThrough { .. } => r matches Ok(RenderedOutput::Text(t)) && t.formatted@ == p@
                    && t.raw@ == p@,
            },
        },
{
    match output {
        RenderedOutput::Text(_) => match shell {
            Err(m) => Err(hook_failure(HookPhase::PostOutput, m.as_str())),
            Ok(printed) => match step {
                PostOutputStep::PipeTo { .. } => Ok(output),
                PostOutputStep::PipeThrough { .. } => {
                    let raw = printed.clone();
                    Ok(RenderedOutput::Text(TextOutput { formatted: printed, raw }))
                },
            },
        },
        _ => Ok(output),
    }
}

/// Which template a command renders with: one registered under a name, none
/// for a declared reason, or, when neither was configured, the one its
/// command path names by convention. The last configuration call wins.
#[derive(Debug, Clone, PartialEq, Eq)]
pub enum TemplateChoice {
    /// The template its command path names by convention.
    Convention,
    /// The template registered under this name.
    Named(String),
    /// No template, for this reason.
    Absent(TemplateAbsence),
}

/// The configuration of one command.
pub struct CommandConfig<H> {
    /// The command's handler.
    pub handler: H,
    /// The template it renders with.
    pub template: TemplateChoice,
    /// Its hooks, once any were set.
    pub hooks: Option<Hooks>,
    /// Whether its complete human output may be paged.
    pub pageable: bool,
}

/// The post-output steps of a configuration, in order.
pub open spec fn post_output_steps<H>(c: CommandConfig<H>) -> Seq<PostOutputStep> {
    match c.hooks {
        Some(h) => h.post_output@,
        None => seq![],
    }
}

/// `b` is `a` with only its template choice replaced by `t`.
pub open spec fn with_template<H>(a: CommandConfig<H>, b: CommandConfig<H>, t: TemplateChoice) -> bool {
    &&& b.handler == a.handler
    &&& b.template == t
    &&& b.hooks == a.hooks
    &&& b.pageable == a.pageable
}

/// `b` is `a` with `step` run after its other post-output steps.
pub open spec fn with_step<H>(a: CommandConfig<H>, b: CommandConfig<H>, step: PostOutputStep) -> bool {
    &&& b.handler == a.handler
    &&& b.template == a.template
    &&& b.pageable == a.pageable
    &&& b.hooks is Some
    &&& post_output_steps(b) == post_output_steps(a).push(step)
}

impl<H> CommandConfig<H> {
    /// A configuration for `handler`: the conventional template, no hooks,
    /// not pageable.
    pub fn new(handler: H) -> (c: Self)
        ensures
            c.handler == handler,
            c.template == TemplateChoice::Convention,
            c.hooks is None,
            !c.pageable,
    {
        CommandConfig { handler, template: TemplateChoice::Convention, hooks: None, pageable: false }
    }

    /// Render with the template registered as `name`.
    pub fn template_name(self, name: &str) -> (c: Self)
        ensures
            c.template matches TemplateChoice::Named(n) && n@ == name@,
            c.handler == self.handler,
            c.hooks == self.hooks,
            c.pageable == self.pageable,
    {
        CommandConfig { handler: self.handler, template: TemplateChoice::Named(name.to_owned()), hooks: self.hooks, pageable: self.pageable }
    }

    /// The command has only structured output, and no template.
    pub fn structured_only(self) -> (c: Self)
        ensures
            with_template(self, c, TemplateChoice::Absent(TemplateAbsence::StructuredOnly)),
    {
        CommandConfig {
            handler: self.handler,
            template: TemplateChoice::Absent(TemplateAbsence::StructuredOnly),
            hooks: self.hooks,
            pageable: self.pageable,
        }
    }

    /// The command prints nothing, and has no template.
    pub fn silent(self) -> (c: Self)
        ensures
            with_template(self, c, TemplateChoice::Absent(TemplateAbsence::Silent)),
    {
        CommandConfig {
            handler: self.handler,
            template: TemplateChoice::Absent(TemplateAbsence::Silent),
            hooks: self.hooks,
            pageable: self.pageable,
        }
    }

    /// The command writes binary bytes, and has no template.
    pub fn binary(self) -> (c: Self)
        ensures
            with_template(self, c, TemplateChoice::Absent(TemplateAbsence::Binary)),
    {
        CommandConfig {
            handler: self.handler,
            template: TemplateChoice::Absent(TemplateAbsence::Binary),
            hooks: self.hooks,
            pageable: self.pageable,
        }
    }

    /// Replace the command's hooks with `hooks`.
    pub fn hooks(self, hooks: Hooks) -> (c: Self)
        ensures
            c.hooks == Some(hooks),
            c.handler == self.handler,
            c.template == self.template,
            c.pageable == self.pageable,
    {
        CommandConfig { handler: self.handler, template: self.template, hooks: Some(hooks), pageable: self.pageable }
    }

    /// Mark the command's complete human output as pageable. This only makes
    /// it eligible: nothing is paged unless the run is batch human output on
    /// a terminal the environment names a pager for.
    pub fn pageable(self) -> (c: Self)
        ensures
            c.pageable,
            c.handler == self.handler,
            c.template == self.template,
            c.hooks == self.hooks,
    {
        CommandConfig { handler: self.handler, template: self.template, hooks: self.hooks, pageable: true }
    }

    /// Run `step` on the command's rendered text after its other
    /// post-output steps.
    fn then_step(self, step: PostOutputStep) -> (c: Self)
        ensures
            with_step(self, c, step),
    {
        let hooks = match self.hooks {
            Some(h) => h,
            None => Hooks::new(),
        };
        CommandConfig { handler: self.handler, template: self.template, hooks: Some(hooks.post_output(step)), pageable: self.pageable }
    }

    /// Send the command's text output to the shell `command` as well,
    /// stopping it after `timeout_secs` seconds; the output is unchanged.
    pub fn pipe_to_with_timeout(self, command: &str, timeout_secs: u64) -> (c: Self)
        ensures
            post_output_steps(c).last() matches PostOutputStep::PipeTo { command: s, timeout_secs: t }
                && s@ == command@ && t == timeout_secs,
            exists|step: PostOutputStep| with_step(self, c, step),
    {
        let step = PostOutputStep::PipeTo { command: command.to_owned(), timeout_secs };
        self.then_step(step)
    }

    /// Send the command's text output to the shell `command` as well, with
    /// the default timeout; the output is unchanged.
    pub fn pipe_to(self, command: &str) -> (c: Self)
        ensures
            post_output_steps(c).last() matches PostOutputStep::PipeTo { command: s, timeout_secs: t }
                && s@ == command@ && t == DEFAULT_PIPE_TIMEOUT_SECS,
            exists|step: PostOutputStep| with_step(self, c, step),
    {
        self.pipe_to_with_timeout(command, DEFAULT_PIPE_TIMEOUT_SECS)
    }

    /// Send the command's text output through the shell `command`, stopping
    /// it after `timeout_secs` seconds; what it prints becomes the output.
    pub fn pipe_through_with_timeout(self, command: &str, timeout_secs: u64) -> (c: Self)
        ensures
            post_output_steps(c).last() matches PostOutputStep::PipeThrough { command: s, timeout_secs: t }
                && s@ == command@ && t == timeout_secs,
            exists|step: PostOutputStep| with_step(self, c, step),
    {
        let step = PostOutputStep::PipeThrough { command: command.to_owned(), timeout_secs };
        self.then_step(step)
    }

    /// Send the command's text output through the shell `command`, with the
    /// default timeout; what it prints becomes the output.
    pub fn pipe_through(self, command: &str) -> (c: Self)
        ensures
            post_output_steps(c).last() matches PostOutputStep::PipeThrough { command: s, timeout_secs: t }
                && s@ == command@ && t == DEFAULT_PIPE_TIMEOUT_SECS,
            exists|step: PostOutputStep| with_step(self, c, step),
    {
        self.pipe_through_with_timeout(command, DEFAULT_PIPE_TIMEOUT_SECS)
    }

    /// The template the command at `command_path` renders with: none when
    /// it declared a reason, the named one when it named one, and otherwise
    /// the one its path names by convention.
    pub fn template(&self, command_path: &str) -> (t: TemplateRef)
        ensures
            match self.template {
                TemplateChoice::Absent(a) => t == TemplateRef::Absent(a),
                TemplateChoice::Named(n) => t matches TemplateRef::Named(m) && m@ == n@,
                TemplateChoice::Convention => t matches TemplateRef::Named(m)
                    && m@ == dots_to_slashes(command_path@),
            },
    {
        match &self.template {
            TemplateChoice::Absent(a) => TemplateRef::Absent(*a),
            TemplateChoice::Named(n) => TemplateRef::Named(n.clone()),
            TemplateChoice::Convention => TemplateRef::convention(command_path),
        }
    }
}

} // verus!
