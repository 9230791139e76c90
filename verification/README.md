# Standout

The verified core of Standout, a CLI output framework in which handlers
return data and the framework decides how a run's result reaches the
terminal. Everything under `src/` is written in Verus and proved against its
contract, except the small trusted wrappers (marked
`#[verifier::external_body]`) through which it calls deunicode and std.

## Layout

- `src/views/`: the view results (list, detail, create, update, delete) and
  their status messages, with builders whose contracts say what each call
  changes.
- `src/topics.rs`: the help-topic registry: adding, finding, listing and
  loading topics from a directory listing.
- `src/cli/`: the command-line side:
  - `representation.rs`, `run.rs`, `unparsed.rs`: the output representation,
    the color policy and paging of a run, and the flags read from the raw
    command line;
  - `emit.rs`, `handler.rs`, `dispatch.rs`: what a run came to and how it is
    written, one step at a time, to stdout and stderr;
  - `presentation.rs`: the decisions of a run, stage by stage: which step a
    parsed command path takes, how the handler's output is presented in the
    run's mode, and where an emitted result is delivered;
  - `help.rs`, `help_args.rs`, `help_listing.rs`, `display_order.rs`,
    `help_source.rs`, `help_word.rs`: the help page's sections, groups and
    rows, the structured help document, and how both are read from a
    command tree (`HelpNode`) that holds what clap reports of a definition;
  - `setup_checks.rs`, `flag_claims.rs`, `config_claims.rs`,
    `reachability.rs`, `template_checks.rs`, `default_command.rs`,
    `style_tags.rs`, `templates.rs`, `config.rs`, `group.rs`, `pager.rs`,
    `framework_args.rs`: the checks an application passes when it is built,
    the flags the framework adds, and the configuration of its commands.
- `src/text.rs`: character-level string helpers with their specifications.
- `app/`: plain Rust around the library: reading directories and the
  environment, spawning the pager, driving the emission over real streams,
  walking clap's command tree into the library's flag, command and help
  trees, running the shell commands of post-output steps, dispatching a
  parsed command line and carrying out the presentation the library
  decides, and serde copies of the view types.
- `tests/`: the test suite, run against the compiled library.

Laws that relate several operations are public proof functions whose names
begin with `law_`.

## What is not here

Some of the framework rests on crates that are not available to this
project (its renderer, its dispatch and questionnaire crates) or runs code
its users supply, and is left out:

- rendering: templates, themes and stylesheets themselves, topic pages and
  the topics list (`render_topic`, `render_topics_list`), the help page's
  width fields, and the diagnostic document (its rendering and parsing); the
  library writes a diagnostic document it is handed as bytes;
- the questionnaire feature, with `confirmation`, and
  `structured_output_projection`;
- the pre-dispatch and post-dispatch hooks, which are closures of the
  application: only their outcome enters the library (`dispatch_step` takes
  the pre-dispatch outcome), and `Hooks` holds the post-output steps alone;
- the handler itself: `app/` takes the handler's rendered reply.

The choice of the application's theme (a given theme, a registered default
theme, or none) is checked in `configured_theme`; loading the theme is the
renderer's.
