//! The representation a run renders in, the color policy of its human text,
//! and the spellings the `--output` and `--color` flags and the `[term]`
//! configuration section accept for them.

use vstd::prelude::*;

use crate::text::chars_of;

verus! {

broadcast use vstd::string::group_string_axioms;

/// How a run's result is represented.
#[derive(Debug, Clone, Copy, PartialEq, Eq, Structural)]
pub enum Representation {
    /// Human text rendered from the command's template.
    Human,
    /// The template's style tags shown as tags, for debugging a theme.
    TermDebug,
    /// One JSON document.
    Json,
    /// One YAML document.
    Yaml,
    /// One CSV document.
    Csv,
    /// A stream of JSON lines.
    Ndjson,
}

/// The four structured encodings.
pub open spec fn structured(r: Representation) -> bool {
    r == Representation::Json || r == Representation::Yaml || r == Representation::Csv
        || r == Representation::Ndjson
}

impl Representation {
    /// Whether this is one of the four structured encodings.
    pub fn is_structured(&self) -> (b: bool)
        ensures
            b == structured(*self),
    {
        match self {
            Representation::Json | Representation::Yaml | Representation::Csv | Representation::Ndjson => true,
            _ => false,
        }
    }

    /// Whether this is the line stream (`ndjson`).
    pub fn is_stream(&self) -> (b: bool)
        ensures
            b == (*self == Representation::Ndjson),
    {
        match self {
            Representation::Ndjson => true,
            _ => false,
        }
    }

    /// Whether this is the human representation.
    pub fn is_human(&self) -> (b: bool)
        ensures
            b == (*self == Representation::Human),
    {
        match self {
            Representation::Human => true,
            _ => false,
        }
    }
}

/// Whether human text carries escape sequences.
#[derive(Debug, Clone, Copy, PartialEq, Eq, Structural)]
pub enum ColorPolicy {
    /// Color when the destination is a terminal that supports it.
    Auto,
    /// Always color.
    Always,
    /// Never color.
    Never,
}

impl Default for ColorPolicy {
    fn default() -> (c: Self)
        ensures
            c == ColorPolicy::Auto,
    {
        ColorPolicy::Auto
    }
}

/// The spelling of a character sequence as an `--output` value.
pub open spec fn output_flag_meaning(value: Seq<char>) -> Option<Representation> {
    if value == "json"@ {
        Some(Representation::Json)
    } else if value == "yaml"@ {
        Some(Representation::Yaml)
    } else if value == "csv"@ {
        Some(Representation::Csv)
    } else if value == "ndjson"@ {
        Some(Representation::Ndjson)
    } else if value == "term-debug"@ {
        Some(Representation::TermDebug)
    } else {
        None
    }
}

/// Whether a string spells exactly the given literal.
fn spells(value: &Vec<char>, literal: &str) -> (b: bool)
    ensures
        b == (value@ == literal@),
{
    let lit = chars_of(literal);
    crate::text::chars_equal(value, &lit)
}

/// The representation an `--output` value names: one of the structured
/// encodings or `term-debug`. The human representation has no spelling.
pub fn parse_output_mode_flag(value: &str) -> (r: Option<Representation>)
    ensures
        r == output_flag_meaning(value@),
{
    let v = chars_of(value);
    if spells(&v, "json") {
        Some(Representation::Json)
    } else if spells(&v, "yaml") {
        Some(Representation::Yaml)
    } else if spells(&v, "csv") {
        Some(Representation::Csv)
    } else if spells(&v, "ndjson") {
        Some(Representation::Ndjson)
    } else if spells(&v, "term-debug") {
        Some(Representation::TermDebug)
    } else {
        None
    }
}

/// The `--output` value that names a representation, if the flag can name it.
pub open spec fn output_flag_spelling(r: Representation) -> Option<Seq<char>> {
    match r {
        Representation::Json => Some("json"@),
        Representation::Yaml => Some("yaml"@),
        Representation::Csv => Some("csv"@),
        Representation::Ndjson => Some("ndjson"@),
        Representation::TermDebug => Some("term-debug"@),
        Representation::Human => None,
    }
}

/// The `--output` value naming `representation`; `None` for the human
/// representation, which the flag cannot name.
pub fn output_mode_flag_spelling(representation: Representation) -> (s: Option<&'static str>)
    ensures
        match s {
            Some(s) => output_flag_spelling(representation) == Some(s@),
            None => output_flag_spelling(representation) is None,
        },
{
    match representation {
        Representation::Json => Some("json"),
        Representation::Yaml => Some("yaml"),
        Representation::Csv => Some("csv"),
        Representation::Ndjson => Some("ndjson"),
        Representation::TermDebug => Some("term-debug"),
        Representation::Human => None,
    }
}

/// Reading a flag's spelling back gives the representation it spells, and
/// every value the flag accepts is the spelling of what it names.
pub proof fn lemma_output_flag_round_trip(r: Representation, value: Seq<char>)
    ensures
        output_flag_spelling(r) matches Some(s) ==> output_flag_meaning(s) == Some(r),
        output_flag_meaning(value) matches Some(m) ==> output_flag_spelling(m) == Some(value),
{
    reveal_strlit("json");
    reveal_strlit("yaml");
    reveal_strlit("csv");
    reveal_strlit("ndjson");
    reveal_strlit("term-debug");
    assert("json"@[0] != "yaml"@[0]);
    assert("json"@.len() != "csv"@.len() && "json"@.len() != "ndjson"@.len()
        && "json"@.len() != "term-debug"@.len());
    assert("yaml"@.len() != "csv"@.len() && "yaml"@.len() != "ndjson"@.len()
        && "yaml"@.len() != "term-debug"@.len());
    assert("csv"@.len() != "ndjson"@.len() && "csv"@.len() != "term-debug"@.len());
    assert("ndjson"@.len() != "term-debug"@.len());
}

/// The policy a `--color` value names.
pub open spec fn color_flag_meaning(value: Seq<char>) -> Option<ColorPolicy> {
    if value == "auto"@ {
        Some(ColorPolicy::Auto)
    } else if value == "always"@ {
        Some(ColorPolicy::Always)
    } else if value == "never"@ {
        Some(ColorPolicy::Never)
    } else {
        None
    }
}

/// The color policy a `--color` value names: `auto`, `always` or `never`.
pub fn parse_color_flag(value: &str) -> (c: Option<ColorPolicy>)
    ensures
        c == color_flag_meaning(value@),
{
    let v = chars_of(value);
    if spells(&v, "auto") {
        Some(ColorPolicy::Auto)
    } else if spells(&v, "always") {
        Some(ColorPolicy::Always)
    } else if spells(&v, "never") {
        Some(ColorPolicy::Never)
    } else {
        None
    }
}

/// Whether help answers in this representation with a document rather than
/// the page: `json`, `yaml`, and `csv` (which has no help projection).
pub fn help_is_a_document(mode: Representation) -> (b: bool)
    ensures
        b == (mode == Representation::Json || mode == Representation::Yaml || mode == Representation::Csv),
{
    match mode {
        Representation::Json | Representation::Yaml | Representation::Csv => true,
        _ => false,
    }
}

/// The representation the help page renders in: a structured mode falls
/// back to the human page.
pub fn human_help_format(mode: Representation) -> (r: Representation)
    ensures
        r == (if structured(mode) { Representation::Human } else { mode }),
        !structured(r),
{
    if mode.is_structured() {
        Representation::Human
    } else {
        mode
    }
}

/// Whether the run's output goes through the streaming sink: the line
/// stream and human text.
pub fn writes_through_the_sink(output_mode: Representation) -> (b: bool)
    ensures
        b == (output_mode == Representation::Ndjson || output_mode == Representation::Human),
{
    output_mode.is_stream() || output_mode.is_human()
}

/// The structured encodings the `[term] output` key can name.
#[derive(Debug, Clone, Copy, PartialEq, Eq, Structural)]
pub enum TermOutput {
    /// `json`
    Json,
    /// `yaml`
    Yaml,
    /// `csv`
    Csv,
    /// `ndjson`
    Ndjson,
}

/// The color policies the `[term] color` key can name.
#[derive(Debug, Clone, Copy, PartialEq, Eq, Structural)]
pub enum TermColor {
    /// `auto`
    Auto,
    /// `always`
    Always,
    /// `never`
    Never,
}

/// The `[term]` section of an application's configuration: the keys the
/// framework reads for itself.
#[derive(Debug, Clone, Copy, PartialEq, Eq, Structural)]
pub struct TermSettings {
    /// The structured encoding to use when `--output` was not given.
    pub output: Option<TermOutput>,
    /// The color policy to use when `--color` was not given.
    pub color: Option<TermColor>,
}

impl Default for TermSettings {
    fn default() -> (s: Self)
        ensures
            s.output is None,
            s.color is None,
    {
        TermSettings { output: None, color: None }
    }
}

/// The policy a `[term] color` value stands for.
pub open spec fn term_color_policy(color: TermColor) -> ColorPolicy {
    match color {
        TermColor::Auto => ColorPolicy::Auto,
        TermColor::Always => ColorPolicy::Always,
        TermColor::Never => ColorPolicy::Never,
    }
}

/// The representation a `[term] output` value stands for.
pub open spec fn term_output_representation(output: TermOutput) -> Representation {
    match output {
        TermOutput::Json => Representation::Json,
        TermOutput::Yaml => Representation::Yaml,
        TermOutput::Csv => Representation::Csv,
        TermOutput::Ndjson => Representation::Ndjson,
    }
}

impl vstd::std_specs::convert::FromSpecImpl<TermColor> for ColorPolicy {
    open spec fn obeys_from_spec() -> bool {
        true
    }

    open spec fn from_spec(color: TermColor) -> ColorPolicy {
        term_color_policy(color)
    }
}

impl vstd::std_specs::convert::FromSpecImpl<TermOutput> for Representation {
    open spec fn obeys_from_spec() -> bool {
        true
    }

    open spec fn from_spec(output: TermOutput) -> Representation {
        term_output_representation(output)
    }
}

impl From<TermColor> for ColorPolicy {
    fn from(color: TermColor) -> (c: ColorPolicy)
        ensures
            c == match color {
                TermColor::Auto => ColorPolicy::Auto,
                TermColor::Always => ColorPolicy::Always,
                TermColor::Never => ColorPolicy::Never,
            },
    {
        match color {
            TermColor::Auto => ColorPolicy::Auto,
            TermColor::Always => ColorPolicy::Always,
            TermColor::Never => ColorPolicy::Never,
        }
    }
}

impl From<TermOutput> for Representation {
    fn from(output: TermOutput) -> (r: Representation)
        ensures
            structured(r),
            r == match output {
                TermOutput::Json => Representation::Json,
                TermOutput::Yaml => Representation::Yaml,
                TermOutput::Csv => Representation::Csv,
                TermOutput::Ndjson => Representation::Ndjson,
            },
    {
        match output {
            TermOutput::Json => Representation::Json,
            TermOutput::Yaml => Representation::Yaml,
            TermOutput::Csv => Representation::Csv,
            TermOutput::Ndjson => Representation::Ndjson,
        }
    }
}

} // verus!
