//! The pager rule: which command pages a run's human output, and what a
//! pager run comes to.
//!
//! The command comes from the environment only — `<APP>_PAGER`, then `PAGER`.
//! The first of them that is set wins, and an empty (or all-whitespace)
//! winning value means "do not page".

use vstd::prelude::*;

use crate::text::{chars_of, string_of, trim, trim_seq};

verus! {

broadcast use vstd::string::group_string_axioms;

/// What `sh` exits with when the command exists but is not executable.
pub const SHELL_NOT_EXECUTABLE: i32 = 126;

/// What `sh` exits with when no such command was found.
pub const SHELL_NOT_FOUND: i32 = 127;

/// The pager a run pages its human output through: a shell word list.
#[derive(Debug, Clone, PartialEq, Eq)]
pub struct Pager {
    command: String,
}

/// What a pager run came to.
#[derive(Debug, Clone, Copy, PartialEq, Eq, Structural)]
pub enum PagerOutcome {
    /// The pager read the bytes.
    Paged,
    /// The pager could not start; the caller still owes the user the bytes.
    CouldNotStart,
    /// The pager stopped reading early; the bytes are spent.
    ReaderLeft,
}

/// How a pager process went, as the caller observed it.
#[derive(Debug, Clone, Copy, PartialEq, Eq, Structural)]
pub enum PagerRun {
    /// The shell could not be spawned.
    NotSpawned,
    /// The shell ran: whether writing the content to it failed, and the
    /// exit code it finished with, if it finished with one.
    Finished {
        /// Writing the content to the pager's stdin failed.
        unread: bool,
        /// The exit code, when the process exited with one.
        exit_code: Option<i32>,
    },
}

/// The outcome a pager run comes to: a shell that could not be spawned, or
/// that exited 126 or 127, could not start the pager; otherwise a failed
/// write means the reader left, and anything else is a page.
pub open spec fn run_outcome(run: PagerRun) -> PagerOutcome {
    match run {
        PagerRun::NotSpawned => PagerOutcome::CouldNotStart,
        PagerRun::Finished { unread, exit_code } => {
            if exit_code == Some(SHELL_NOT_EXECUTABLE) || exit_code == Some(SHELL_NOT_FOUND) {
                PagerOutcome::CouldNotStart
            } else if unread {
                PagerOutcome::ReaderLeft
            } else {
                PagerOutcome::Paged
            }
        },
    }
}

/// The outcome of a pager run.
pub fn outcome_of(run: PagerRun) -> (o: PagerOutcome)
    ensures
        o == run_outcome(run),
{
    match run {
        PagerRun::NotSpawned => PagerOutcome::CouldNotStart,
        PagerRun::Finished { unread, exit_code } => {
            let shell_refused = match exit_code {
                Some(code) => code == SHELL_NOT_EXECUTABLE || code == SHELL_NOT_FOUND,
                None => false,
            };
            if shell_refused {
                PagerOutcome::CouldNotStart
            } else if unread {
                PagerOutcome::ReaderLeft
            } else {
                PagerOutcome::Paged
            }
        },
    }
}

/// The character a name character becomes in an environment variable name:
/// upper-cased, and `_` unless it is then an ASCII capital or digit.
pub open spec fn variable_char(c: char) -> char {
    let u = if 'a' <= c && c <= 'z' { ((c as u32) - 32) as char } else { c };
    if ('A' <= u && u <= 'Z') || ('0' <= u && u <= '9') {
        u
    } else {
        '_'
    }
}

/// `<APP>_PAGER`: the application's name upper-cased, with every character
/// outside `A-Z0-9` as `_`.
pub open spec fn pager_variable(app_name: Seq<char>) -> Seq<char> {
    app_name.map_values(|c: char| variable_char(c)) + "_PAGER"@
}

/// The application's pager variable, `<APP>_PAGER`.
pub fn app_pager_var(app_name: &str) -> (name: String)
    ensures
        name@ == pager_variable(app_name@),
{
    let chars = chars_of(app_name);
    let mut out: Vec<char> = Vec::new();
    let mut i: usize = 0;
    while i < chars.len()
        invariant
            i <= chars@.len(),
            chars@ == app_name@,
            out@ == chars@.take(i as int).map_values(|c: char| variable_char(c)),
        decreases chars@.len() - i,
    {
        let c = chars[i];
        let u = if 'a' <= c && c <= 'z' { ((c as u8) - 32) as char } else { c };
        let v = if ('A' <= u && u <= 'Z') || ('0' <= u && u <= '9') { u } else { '_' };
        out.push(v);
        proof {
            assert(chars@.take(i + 1) =~= chars@.take(i as int).push(c));
            assert(out@ =~= chars@.take(i + 1).map_values(|c: char| variable_char(c)));
        }
        i = i + 1;
    }
    let suffix = chars_of("_PAGER");
    let mut j: usize = 0;
    let ghost base = out@;
    while j < suffix.len()
        invariant
            j <= suffix@.len(),
            out@ == base + suffix@.take(j as int),
        decreases suffix@.len() - j,
    {
        out.push(suffix[j]);
        proof {
            assert(out@ =~= base + suffix@.take(j + 1));
        }
        j = j + 1;
    }
    proof {
        assert(chars@.take(chars@.len() as int) =~= chars@);
        assert(suffix@.take(suffix@.len() as int) =~= suffix@);
    }
    string_of(&out)
}

/// The variables to consult, in order: the application's own (when the
/// application has a name), then `PAGER`.
pub open spec fn pager_variable_names(app_name: Option<Seq<char>>) -> Seq<Seq<char>> {
    match app_name {
        Some(name) => seq![pager_variable(name), "PAGER"@],
        None => seq!["PAGER"@],
    }
}

/// The environment variables that can name the pager, in the order they are
/// consulted.
pub fn pager_variables(app_name: Option<&str>) -> (names: Vec<String>)
    ensures
        names@.map_values(|s: String| s@) == pager_variable_names(match app_name {
            Some(n) => Some(n@),
            None => None,
        }),
{
    let mut names: Vec<String> = Vec::new();
    match app_name {
        Some(n) => names.push(app_pager_var(n)),
        None => {},
    }
    names.push("PAGER".to_string());
    proof {
        match app_name {
            Some(n) => assert(names@.map_values(|s: String| s@) =~= seq![pager_variable(n@), "PAGER"@]),
            None => assert(names@.map_values(|s: String| s@) =~= seq!["PAGER"@]),
        }
    }
    names
}

/// The first value that is set, if any.
pub open spec fn first_set(values: Seq<Option<String>>) -> Option<String>
    decreases values.len(),
{
    if values.len() == 0 {
        None
    } else if values[0] is Some {
        values[0]
    } else {
        first_set(values.drop_first())
    }
}

/// The pager command that the values of the pager variables name: the first
/// set value, trimmed, unless that is empty.
pub open spec fn pager_command(values: Seq<Option<String>>) -> Option<Seq<char>> {
    match first_set(values) {
        Some(v) => if trim_seq(v@).len() > 0 {
            Some(trim_seq(v@))
        } else {
            None
        },
        None => None,
    }
}

impl Pager {
    /// The pager a run already decided on.
    pub fn named(command: &str) -> (p: Self)
        ensures
            p.command_text() == command@,
    {
        Pager { command: command.to_string() }
    }

    /// The command this pager runs.
    pub closed spec fn command_text(&self) -> Seq<char> {
        self.command@
    }

    /// The shell word list this pager runs.
    pub fn command(&self) -> (c: &str)
        ensures
            c@ == self.command_text(),
    {
        self.command.as_str()
    }

    /// The pager the environment names, given the values of the variables
    /// `pager_variables` lists, in that order (`None` for an unset one).
    pub fn resolve_from(values: Vec<Option<String>>) -> (p: Option<Self>)
        ensures
            match p {
                Some(p) => pager_command(values@) == Some(p.command_text()),
                None => pager_command(values@) is None,
            },
    {
        let mut i: usize = 0;
        proof {
            assert(values@.skip(0) =~= values@);
        }
        while i < values.len()
            invariant
                i <= values@.len(),
                first_set(values@) == first_set(values@.skip(i as int)),
            decreases values@.len() - i,
        {
            match &values[i] {
                Some(v) => {
                    proof {
                        assert(values@.skip(i as int)[0] == values@[i as int]);
                    }
                    let command = trim(&chars_of(v.as_str()));
                    if command.len() == 0 {
                        return None;
                    }
                    return Some(Pager { command: string_of(&command) });
                },
                None => {},
            }
            proof {
                assert(values@.skip(i as int).drop_first() =~= values@.skip(i + 1));
            }
            i = i + 1;
        }
        None
    }
}

/// The reader settings a pager child gets for the variables the parent left
/// unset: `LESS=FRX` (quit on one screen, keep colors, leave the page) and
/// `LV=-c` (keep colors).
pub open spec fn reader_settings(less_set: bool, lv_set: bool) -> Seq<(Seq<char>, Seq<char>)> {
    let less: Seq<(Seq<char>, Seq<char>)> = if less_set { seq![] } else { seq![("LESS"@, "FRX"@)] };
    let lv: Seq<(Seq<char>, Seq<char>)> = if lv_set { seq![] } else { seq![("LV"@, "-c"@)] };
    less + lv
}

/// The pairs of an environment list, as character sequences.
pub open spec fn env_view(env: Seq<(&'static str, &'static str)>) -> Seq<(Seq<char>, Seq<char>)> {
    env.map_values(|p: (&'static str, &'static str)| (p.0@, p.1@))
}

/// The reader settings to give a pager child: each of `LESS=FRX` and `LV=-c`
/// whose variable `is_set` reports unset in the parent.
pub fn child_env<F: Fn(&str) -> bool>(is_set: F) -> (env: Vec<(&'static str, &'static str)>)
    requires
        forall|k: &str| is_set.requires((k,)),
    ensures
        exists|less_set: bool, lv_set: bool| {
            &&& exists|k: &str| k@ == "LESS"@ && is_set.ensures((k,), less_set)
            &&& exists|k: &str| k@ == "LV"@ && is_set.ensures((k,), lv_set)
            &&& env_view(env@) == reader_settings(less_set, lv_set)
        },
{
    let mut env: Vec<(&'static str, &'static str)> = Vec::new();
    let less_set = is_set("LESS");
    if !less_set {
        env.push(("LESS", "FRX"));
    }
    let lv_set = is_set("LV");
    if !lv_set {
        env.push(("LV", "-c"));
    }
    proof {
        assert(env_view(env@) =~= reader_settings(less_set, lv_set));
    }
    env
}

} // verus!
