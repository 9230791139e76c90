//! The configuration surface of a run: the `config` command's place among
//! the application's commands, the override flag's `KEY=VALUE` pairs, and the
//! position a configuration error points at.

use vstd::prelude::*;

use crate::cli::handler::{RunError, RunErrorKind};
use crate::text::{chars_of, concat, slice_to_vec, string_of};

verus! {

broadcast use vstd::string::group_string_axioms;

/// The name of the `config` command the framework installs.
pub const CONFIG_COMMAND: &'static str = "config";

/// `s` starts with `prefix`.
pub open spec fn starts_with(s: Seq<char>, prefix: Seq<char>) -> bool {
    prefix.len() <= s.len() && s.take(prefix.len() as int) == prefix
}

/// Whether `s` starts with `prefix`.
pub fn has_prefix(s: &Vec<char>, prefix: &Vec<char>) -> (b: bool)
    ensures
        b == starts_with(s@, prefix@),
{
    if prefix.len() > s.len() {
        return false;
    }
    let head = slice_to_vec(s, 0, prefix.len());
    crate::text::chars_equal(&head, prefix)
}

/// Whether a command path (segments joined by `.`) is the `config` command
/// or lies under it.
pub fn claims_config_path(path: &str) -> (b: bool)
    ensures
        b == (path@ == "config"@ || starts_with(path@, "config."@)),
{
    let p = chars_of(path);
    let word = chars_of("config");
    let prefix = chars_of("config.");
    crate::text::chars_equal(&p, &word) || has_prefix(&p, &prefix)
}

/// The index of the first `c` in `s`, if there is one.
pub open spec fn first_index_of(s: Seq<char>, c: char) -> Option<int> {
    if exists|i: int| 0 <= i < s.len() && s[i] == c {
        Some(choose|i: int| 0 <= i < s.len() && s[i] == c && forall|j: int| 0 <= j < i ==> s[j] != c)
    } else {
        None
    }
}

/// Where the first `c` stands in `s`, if anywhere.
pub fn find_char(s: &Vec<char>, c: char) -> (found: Option<usize>)
    ensures
        match found {
            Some(i) => i < s@.len() && s@[i as int] == c && forall|j: int| 0 <= j < i ==> s@[j] != c,
            None => forall|j: int| 0 <= j < s@.len() ==> s@[j] != c,
        },
{
    let mut i: usize = 0;
    while i < s.len()
        invariant
            i <= s@.len(),
            forall|j: int| 0 <= j < i ==> s@[j] != c,
        decreases s@.len() - i,
    {
        if s[i] == c {
            return Some(i);
        }
        i = i + 1;
    }
    None
}

/// What the override flag makes of `raw`: the key before the first `=` and
/// the value after it, when the key is not empty.
pub open spec fn override_pair(raw: Seq<char>) -> Option<(Seq<char>, Seq<char>)> {
    match first_index_of(raw, '=') {
        Some(i) => if i > 0 {
            Some((raw.take(i), raw.skip(i + 1)))
        } else {
            None
        },
        None => None,
    }
}

/// Split a `KEY=VALUE` override at its first `=`. An empty key or a missing
/// `=` is refused with ``expected KEY=VALUE, got `raw` ``.
pub fn parse_override_pair(raw: &str) -> (r: Result<(String, String), String>)
    ensures
        match r {
            Ok((key, value)) => override_pair(raw@) == Some((key@, value@)),
            Err(message) => override_pair(raw@) is None
                && message@ == "expected KEY=VALUE, got `"@ + raw@ + "`"@,
        },
{
    let chars = chars_of(raw);
    let n = chars.len();
    match find_char(&chars, '=') {
        Some(i) => {
            proof {
                let w = choose|k: int| 0 <= k < raw@.len() && raw@[k] == '=' && forall|j: int| 0 <= j < k ==> raw@[j] != '=';
                assert(w == i as int) by {
                    if w < i {
                        assert(chars@[w] != '=');
                    } else if w > i {
                        assert(raw@[i as int] != '=');
                    }
                }
            }
            if i > 0 {
                let key = slice_to_vec(&chars, 0, i);
                let value = slice_to_vec(&chars, i + 1, n);
                proof {
                    assert(raw@.take(i as int) =~= key@);
                    assert(raw@.skip(i + 1) =~= value@);
                }
                return Ok((string_of(&key), string_of(&value)));
            }
        },
        None => {},
    }
    let head = concat("expected KEY=VALUE, got `", raw);
    Err(concat(head.as_str(), "`"))
}

/// The override flag's values as pairs, in order, when every value is a
/// `KEY=VALUE` pair.
pub open spec fn all_pairs(values: Seq<String>, pairs: Seq<(String, String)>) -> bool {
    &&& pairs.len() == values.len()
    &&& forall|i: int| 0 <= i < values.len() ==> override_pair((#[trigger] values[i])@) == Some((pairs[i].0@, pairs[i].1@))
}

/// The configuration overrides the override flag carries: each value split
/// into its pair, in order; the first value that is no `KEY=VALUE` pair is
/// a usage error naming it. No values give no overrides.
pub fn config_overrides(values: &Vec<String>) -> (r: Result<Vec<(String, String)>, RunError>)
    ensures
        match r {
            Ok(pairs) => all_pairs(values@, pairs@),
            Err(e) => exists|i: int| {
                &&& 0 <= i < values@.len()
                &&& override_pair((#[trigger] values@[i])@) is None
                &&& forall|j: int| 0 <= j < i ==> override_pair((#[trigger] values@[j])@) is Some
                &&& e.kind == RunErrorKind::ClapUsage
                &&& e.message@ == "expected KEY=VALUE, got `"@ + values@[i]@ + "`"@
            },
        },
{
    let mut pairs: Vec<(String, String)> = Vec::new();
    let mut i: usize = 0;
    while i < values.len()
        invariant
            i <= values@.len(),
            all_pairs(values@.take(i as int), pairs@),
        decreases values@.len() - i,
    {
        match parse_override_pair(values[i].as_str()) {
            Ok(pair) => {
                let ghost before = pairs@;
                pairs.push(pair);
                proof {
                    assert forall|k: int| 0 <= k < i + 1 implies override_pair((#[trigger] values@.take(i + 1)[k])@)
                        == Some((pairs@[k].0@, pairs@[k].1@)) by {
                        if k < i {
                            assert(values@.take(i + 1)[k] == values@.take(i as int)[k]);
                        }
                    }
                }
            },
            Err(message) => {
                proof {
                    assert forall|j: int| 0 <= j < i implies override_pair((#[trigger] values@[j])@) is Some by {
                        assert(values@.take(i as int)[j] == values@[j]);
                    }
                }
                return Err(RunError::new(message.as_str(), RunErrorKind::ClapUsage));
            },
        }
        i = i + 1;
    }
    proof {
        assert(values@.take(values@.len() as int) =~= values@);
    }
    Ok(pairs)
}

/// How many bytes `c` takes in UTF-8.
pub open spec fn utf8_len(c: char) -> int {
    if (c as u32) < 0x80 {
        1
    } else if (c as u32) < 0x800 {
        2
    } else if (c as u32) < 0x10000 {
        3
    } else {
        4
    }
}

/// The line and column reached by walking `s`, whose first character sits at
/// byte `pos`, over every character that starts before byte `offset`.
pub open spec fn walk_lines(s: Seq<char>, pos: int, offset: int, line: int, column: int) -> (int, int)
    decreases s.len(),
{
    if s.len() == 0 || pos >= offset {
        (line, column)
    } else if s[0] == '\n' {
        walk_lines(s.drop_first(), pos + utf8_len(s[0]), offset, line + 1, 1)
    } else {
        walk_lines(s.drop_first(), pos + utf8_len(s[0]), offset, line, column + 1)
    }
}

/// The 1-based line and column of the character at byte `offset` of `source`.
pub open spec fn line_column_at(source: Seq<char>, offset: int) -> (int, int) {
    walk_lines(source, 0, offset, 1, 1)
}

/// The 1-based line and column of byte `offset` in `source`: every line feed
/// before it starts a new line, every other character moves one column.
pub fn line_and_column(source: &str, offset: usize) -> (lc: (u64, u64))
    requires
        source@.len() < u64::MAX,
    ensures
        (lc.0 as int, lc.1 as int) == line_column_at(source@, offset as int),
{
    let chars = chars_of(source);
    let mut line: u64 = 1;
    let mut column: u64 = 1;
    let mut pos: u128 = 0;
    let mut i: usize = 0;
    proof {
        assert(chars@.skip(0) =~= chars@);
    }
    while i < chars.len() && pos < offset as u128
        invariant
            i <= chars@.len(),
            chars@ == source@,
            source@.len() < u64::MAX,
            1 <= line <= i + 1,
            1 <= column <= i + 1,
            pos <= 4 * i,
            line_column_at(source@, offset as int)
                == walk_lines(chars@.skip(i as int), pos as int, offset as int, line as int, column as int),
        decreases chars@.len() - i,
    {
        let c = chars[i];
        proof {
            assert(chars@.skip(i as int).drop_first() =~= chars@.skip(i + 1));
            assert(chars@.skip(i as int)[0] == c);
        }
        let width: u128 = if (c as u32) < 0x80 {
            1
        } else if (c as u32) < 0x800 {
            2
        } else if (c as u32) < 0x10000 {
            3
        } else {
            4
        };
        if c == '\n' {
            line = line + 1;
            column = 1;
        } else {
            column = column + 1;
        }
        pos = pos + width;
        i = i + 1;
    }
    proof {
        if i == chars@.len() {
            assert(chars@.skip(i as int).len() == 0);
        }
    }
    (line, column)
}

/// The error for a run that asked for a configuration type nobody registered.
#[derive(Debug, Clone, Copy, PartialEq, Eq)]
pub struct MissingConfig {
    /// The name of the type that was asked for.
    pub config_type: &'static str,
}

impl MissingConfig {
    /// The error's message: ``no `T` configuration was resolved for this run;
    /// register one with `App::builder().config(...)` ``.
    pub fn message(&self) -> (m: String)
        ensures
            m@ == "no `"@ + self.config_type@
                + "` configuration was resolved for this run; register one with `App::builder().config(...)`"@,
    {
        let head = concat("no `", self.config_type);
        concat(head.as_str(), "` configuration was resolved for this run; register one with `App::builder().config(...)`")
    }
}


/// Where a configuration key nobody declared was found.
#[derive(Debug, Clone)]
pub struct UnknownKeyInfo {
    /// The file it was found in.
    pub path: String,
    /// Its 1-based line, or 0 when the line is not known.
    pub line: u64,
    /// The byte offset its text starts at, when known.
    pub span_start: Option<usize>,
    /// The file's text, when known.
    pub source: Option<String>,
}

/// What a configuration error says about where it happened.
#[derive(Debug, Clone)]
pub enum ConfigErrorFacts {
    /// Keys nobody declared, in the order they were found.
    UnknownKeys(Vec<UnknownKeyInfo>),
    /// A file that did not parse: its path, where the parser stopped, and its text.
    Parse {
        /// The file.
        path: String,
        /// The byte offset the parser stopped at, when known.
        span_start: Option<usize>,
        /// The file's text, when known.
        source_text: Option<String>,
    },
    /// Any other error; it points at no position.
    Other,
}

/// An optional text is shorter than `u64::MAX` characters.
pub open spec fn text_fits(t: Option<String>) -> bool {
    match t {
        Some(s) => s@.len() < u64::MAX,
        None => true,
    }
}

/// The texts an error carries are shorter than `u64::MAX` characters (as
/// every text in memory is).
pub open spec fn texts_fit(error: ConfigErrorFacts) -> bool {
    match error {
        ConfigErrorFacts::UnknownKeys(infos) => forall|i: int| 0 <= i < infos@.len() ==> text_fits(#[trigger] infos@[i].source),
        ConfigErrorFacts::Parse { source_text, .. } => text_fits(source_text),
        ConfigErrorFacts::Other => true,
    }
}

/// The file, line and column a configuration error points at: for unknown
/// keys, the first key's line (none when it is not known) and its column
/// when its offset and the file's text are known (else column 1); for a
/// file that did not parse, the line and column of the offset the parser
/// stopped at, when both it and the file's text are known.
pub fn config_error_position(error: &ConfigErrorFacts) -> (p: Option<(String, u64, u64)>)
    requires
        texts_fit(*error),
    ensures
        match *error {
            ConfigErrorFacts::UnknownKeys(infos) => if infos@.len() == 0 || infos@[0].line == 0 {
                p is None
            } else {
                p matches Some((file, line, column)) && file@ == infos@[0].path@ && line == infos@[0].line
                    && column as int == (match (infos@[0].span_start, infos@[0].source) {
                        (Some(start), Some(text)) => line_column_at(text@, start as int).1,
                        _ => 1,
                    })
            },
            ConfigErrorFacts::Parse { path, span_start, source_text } => match (span_start, source_text) {
                (Some(start), Some(text)) => p matches Some((file, line, column)) && file@ == path@
                    && (line as int, column as int) == line_column_at(text@, start as int),
                _ => p is None,
            },
            ConfigErrorFacts::Other => p is None,
        },
{
    match error {
        ConfigErrorFacts::UnknownKeys(infos) => {
            if infos.len() == 0 {
                return None;
            }
            let info = &infos[0];
            if info.line == 0 {
                return None;
            }
            let column = match (&info.span_start, &info.source) {
                (Some(start), Some(text)) => line_and_column(text.as_str(), *start).1,
                _ => 1,
            };
            Some((info.path.clone(), info.line, column))
        },
        ConfigErrorFacts::Parse { path, span_start, source_text } => match (span_start, source_text) {
            (Some(start), Some(text)) => {
                let (line, column) = line_and_column(text.as_str(), *start);
                Some((path.clone(), line, column))
            },
            _ => None,
        },
        ConfigErrorFacts::Other => None,
    }
}

} // verus!
