//! The consistency checks an application's setup passes before it is built:
//! help handling against the features that need it, the `help` and `config`
//! words the framework installs, and the configuration flags.

use vstd::prelude::*;

use crate::cli::config::{has_prefix, starts_with};
use crate::cli::help_word::{duplicate_help_text, registered_claim_text, registered_help_collision, least_help_claim};
use crate::setup::SetupError;
use crate::text::{chars_equal, chars_of, concat, lex_less, lex_lt, lemma_lex_lt_transitive, lemma_lex_lt_trichotomy};

verus! {

broadcast use vstd::string::group_string_axioms;

/// What the checks read of an application being built.
#[derive(Debug, Clone)]
pub struct SetupFacts {
    /// Whether the framework intercepts help.
    pub help_handling: bool,
    /// Whether command groups were configured for the help page.
    pub has_command_groups: bool,
    /// Whether any help topic is registered.
    pub has_topics: bool,
    /// Whether the `help` word was asked for.
    pub help_word: bool,
    /// The command paths the application registered.
    pub registered_paths: Vec<String>,
    /// Whether a `[term]` settings accessor was given.
    pub has_term_accessor: bool,
    /// Whether a configuration was given.
    pub has_config: bool,
    /// Whether the framework installs its `config` command (when there is a configuration).
    pub config_command: bool,
    /// The configuration override flag, if one was named.
    pub config_override_flag: Option<String>,
    /// The long name of the `--output` flag, if installed.
    pub output_flag: Option<String>,
    /// The long name of the `--output-file` flag, if installed.
    pub output_file_flag: Option<String>,
    /// The long name of the `--color` flag, if installed.
    pub color_flag: Option<String>,
    /// The long name of the `--no-pager` flag, if installed.
    pub pager_flag: Option<String>,
    /// The long flags the `config` command's own tree takes.
    pub config_tree_longs: Vec<String>,
}

/// A problem the setup checks find.
pub enum SetupProblem {
    /// A configuration error with this text.
    Config(Seq<char>),
    /// A duplicated command with this text.
    DuplicateCommand(Seq<char>),
}

/// The error a problem is.
pub open spec fn is_problem(e: SetupError, p: SetupProblem) -> bool {
    match p {
        SetupProblem::Config(t) => e matches SetupError::Config(m) && m@ == t,
        SetupProblem::DuplicateCommand(t) => e matches SetupError::DuplicateCommand(m) && m@ == t,
    }
}

/// The text for a help feature configured while help handling is off.
pub open spec fn help_off_text(feature: Seq<char>) -> Seq<char> {
    feature
        + " is configured while help handling is off — standout cannot render grouped/topic help without intercepting help. Drop the .help_handling(false) call, or drop the "@
        + feature
}

/// The text for the `help` word asked for while help handling is off.
pub open spec fn help_word_off_text() -> Seq<char> {
    "help_word is set while help handling is off — the `help` word is standout's own subcommand, so there is nothing to install without help interception. Drop the .help_handling(false) call, or drop .help_word(true)"@
}

/// The text for a `[term]` accessor without a configuration.
pub open spec fn term_without_config_text() -> Seq<char> {
    "term_settings is set without .config(...): there is no configuration to read the accessor from"@
}

/// The text for an override flag without a configuration.
pub open spec fn override_without_config_text(flag: Seq<char>) -> Seq<char> {
    "config_override_flag(\""@ + flag + "\") is set without .config(...): there is no configuration for the flag to override"@
}

/// The text for an override flag named like a flag the framework installs.
pub open spec fn override_taken_text(flag: Seq<char>) -> Seq<char> {
    "config_override_flag(\""@ + flag + "\") names a flag standout already installs"@
}

/// The text for removing a `config` command that no configuration installs.
pub open spec fn no_config_command_text() -> Seq<char> {
    "no_config_command() is set without .config(...): there is no `config` command to remove"@
}

/// The text for a flag the framework installs that the `config` tree takes too.
pub open spec fn config_option_text(claim: Seq<char>) -> Seq<char> {
    "config — "@ + claim
        + ", and the `config` command standout installs for the configuration given to .config(...) takes it on its own tree, where clap would propagate the global. Rename the flag, or call .no_config_command() to keep it"@
}

/// The text for an application command that takes the `config` word.
pub open spec fn config_command_text(claim: Seq<char>) -> Seq<char> {
    "config — "@ + claim
        + ", and standout installs a `config` command of its own for the configuration given to .config(...). Rename the application's command, or call .no_config_command() to keep the name"@
}

/// The option's flag, when it is installed and the `config` tree takes it.
pub open spec fn tree_takes(longs: Seq<String>, flag: Option<String>) -> bool {
    flag matches Some(f) && exists|i: int| 0 <= i < longs.len() && longs[i]@ == f@
}

/// The framework flags in the order they are checked against the `config` tree.
pub open spec fn framework_flags(f: SetupFacts) -> Seq<(Seq<char>, Option<String>)> {
    seq![
        ("output_flag"@, f.output_flag),
        ("output_file_flag"@, f.output_file_flag),
        ("color_flag"@, f.color_flag),
        ("pager_flag"@, f.pager_flag),
    ]
}

/// The first framework flag the `config` tree takes: the option's name and the flag.
pub open spec fn first_taken_flag(longs: Seq<String>, flags: Seq<(Seq<char>, Option<String>)>) -> Option<(Seq<char>, Seq<char>)>
    decreases flags.len(),
{
    if flags.len() == 0 {
        None
    } else if tree_takes(longs, flags[0].1) {
        Some((flags[0].0, flags[0].1->0@))
    } else {
        first_taken_flag(longs, flags.drop_first())
    }
}

/// The claim a framework flag makes on the `config` tree.
pub open spec fn flag_claim_text(option: Seq<char>, flag: Seq<char>) -> Seq<char> {
    option + "(Some(\""@ + flag + "\")) installs `--"@ + flag + "` as a root-global flag"@
}

/// A path claims the root `config` word: it is `config`, or lies under it.
pub open spec fn claims_config(path: Seq<char>) -> bool {
    path == "config"@ || starts_with(path, "config."@)
}

/// `least` is the smallest, in string order, of the paths that claim `config`.
pub open spec fn least_config_claim(paths: Seq<String>, least: Seq<char>) -> bool {
    &&& exists|i: int| 0 <= i < paths.len() && paths[i]@ == least
    &&& claims_config(least)
    &&& forall|i: int| 0 <= i < paths.len() && claims_config(#[trigger] paths[i]@) ==> !lex_lt(paths[i]@, least)
}

/// The override flag is named like a flag the framework installs, or one the
/// `config` tree takes when the command is installed.
pub open spec fn override_taken(f: SetupFacts, flag: Seq<char>) -> bool {
    ||| (f.output_flag matches Some(o) && o@ == flag)
    ||| (f.output_file_flag matches Some(o) && o@ == flag)
    ||| (f.color_flag matches Some(o) && o@ == flag)
    ||| (f.pager_flag matches Some(o) && o@ == flag)
    ||| (f.config_command && f.has_config && exists|i: int| 0 <= i < f.config_tree_longs@.len()
        && f.config_tree_longs@[i]@ == flag)
}

/// Whether `longs` holds `flag`.
fn holds_long(longs: &Vec<String>, flag: &String) -> (b: bool)
    ensures
        b == exists|i: int| 0 <= i < longs@.len() && longs@[i]@ == flag@,
{
    let mut i: usize = 0;
    while i < longs.len()
        invariant
            i <= longs@.len(),
            forall|k: int| 0 <= k < i ==> longs@[k]@ != flag@,
        decreases longs@.len() - i,
    {
        if longs[i] == *flag {
            return true;
        }
        i = i + 1;
    }
    false
}

/// Whether an optional flag is installed under the name `flag`.
fn names(installed: &Option<String>, flag: &String) -> (b: bool)
    ensures
        b == (installed matches Some(o) && o@ == flag@),
{
    match installed {
        Some(o) => *o == *flag,
        None => false,
    }
}

/// The first framework flag the `config` tree takes, as the claim it makes.
fn taken_flag_claim(f: &SetupFacts) -> (claim: Option<String>)
    ensures
        match first_taken_flag(f.config_tree_longs@, framework_flags(*f)) {
            Some((option, flag)) => claim matches Some(c) && c@ == flag_claim_text(option, flag),
            None => claim is None,
        },
{
    let ghost flags = framework_flags(*f);
    proof {
        reveal_strlit("output_flag");
        reveal_strlit("output_file_flag");
        reveal_strlit("color_flag");
        reveal_strlit("pager_flag");
        assert(flags.drop_first() =~= seq![flags[1], flags[2], flags[3]]);
        assert(flags.drop_first().drop_first() =~= seq![flags[2], flags[3]]);
        assert(flags.drop_first().drop_first().drop_first() =~= seq![flags[3]]);
        assert(flags.drop_first().drop_first().drop_first().drop_first() =~= Seq::<(Seq<char>, Option<String>)>::empty());
        assert(flags.skip(0) =~= flags);
    }
    let candidates: [(&str, &Option<String>); 4] = [
        ("output_flag", &f.output_flag),
        ("output_file_flag", &f.output_file_flag),
        ("color_flag", &f.color_flag),
        ("pager_flag", &f.pager_flag),
    ];
    let mut i: usize = 0;
    while i < 4
        invariant
            i <= 4,
            flags == framework_flags(*f),
            candidates@.len() == 4,
            forall|k: int| 0 <= k < 4 ==> (#[trigger] candidates@[k]).0@ == flags[k].0 && *candidates@[k].1 == flags[k].1,
            first_taken_flag(f.config_tree_longs@, flags) == first_taken_flag(f.config_tree_longs@, flags.skip(i as int)),
        decreases 4 - i,
    {
        let (option, installed) = candidates[i];
        proof {
            assert(flags.skip(i as int)[0] == flags[i as int]);
            assert(flags.skip(i as int).drop_first() =~= flags.skip(i + 1));
        }
        match installed {
            Some(flag) => {
                if holds_long(&f.config_tree_longs, flag) {
                    let a = concat(option, "(Some(\"");
                    let b = concat(a.as_str(), flag.as_str());
                    let c = concat(b.as_str(), "\")) installs `--");
                    let d = concat(c.as_str(), flag.as_str());
                    return Some(concat(d.as_str(), "` as a root-global flag"));
                }
            },
            None => {},
        }
        i = i + 1;
    }
    proof {
        assert(flags.skip(4) =~= Seq::<(Seq<char>, Option<String>)>::empty());
    }
    None
}

/// Whether a registered command path claims the root `config` word.
fn claims_config_word(path: &str) -> (b: bool)
    ensures
        b == claims_config(path@),
{
    let p = chars_of(path);
    chars_equal(&p, &chars_of("config")) || has_prefix(&p, &chars_of("config."))
}

/// The least registered path, in string order, that claims `config`.
fn least_config_path(paths: &Vec<String>) -> (least: Option<usize>)
    ensures
        match least {
            Some(b) => b < paths@.len() && least_config_claim(paths@, paths@[b as int]@),
            None => forall|i: int| 0 <= i < paths@.len() ==> !claims_config(#[trigger] paths@[i]@),
        },
{
    let mut best: Option<usize> = None;
    let mut i: usize = 0;
    while i < paths.len()
        invariant
            i <= paths@.len(),
            match best {
                Some(b) => b < i && claims_config(paths@[b as int]@)
                    && forall|k: int| 0 <= k < i && claims_config(#[trigger] paths@[k]@)
                        ==> !lex_lt(paths@[k]@, paths@[b as int]@),
                None => forall|k: int| 0 <= k < i ==> !claims_config(#[trigger] paths@[k]@),
            },
        decreases paths@.len() - i,
    {
        if claims_config_word(paths[i].as_str()) {
            match best {
                None => {
                    best = Some(i);
                    proof {
                        lemma_lex_lt_trichotomy(paths@[i as int]@, paths@[i as int]@);
                    }
                },
                Some(b) => {
                    if lex_less(&chars_of(paths[i].as_str()), &chars_of(paths[b].as_str())) {
                        best = Some(i);
                        proof {
                            lemma_lex_lt_trichotomy(paths@[i as int]@, paths@[i as int]@);
                            assert forall|k: int| 0 <= k < i + 1 && claims_config(#[trigger] paths@[k]@)
                                implies !lex_lt(paths@[k]@, paths@[i as int]@) by {
                                if k < i {
                                    lemma_lex_lt_trichotomy(paths@[k]@, paths@[b as int]@);
                                    if lex_lt(paths@[k]@, paths@[i as int]@) {
                                        lemma_lex_lt_transitive(paths@[k]@, paths@[i as int]@, paths@[b as int]@);
                                    }
                                }
                            }
                        }
                    }
                },
            }
        }
        i = i + 1;
    }
    best
}

/// What the checks before the `help` word find: a help feature or the
/// `help` word configured while help handling is off.
pub open spec fn help_off_problem(f: SetupFacts) -> Option<SetupProblem> {
    if !f.help_handling && (f.has_command_groups || f.has_topics) {
        Some(SetupProblem::Config(help_off_text(if f.has_command_groups { "command_groups"@ } else { "topics"@ })))
    } else if !f.help_handling && f.help_word {
        Some(SetupProblem::Config(help_word_off_text()))
    } else {
        None
    }
}

/// What the checks after the `help` word find, in order: a `[term]`
/// accessor without a configuration; an override flag without one, or one
/// named like a framework flag; a removed `config` command without one; and,
/// when the `config` command is installed, a framework flag its tree takes.
pub open spec fn flag_problem(f: SetupFacts) -> Option<SetupProblem> {
    if f.has_term_accessor && !f.has_config {
        Some(SetupProblem::Config(term_without_config_text()))
    } else if f.config_override_flag is Some && !f.has_config {
        Some(SetupProblem::Config(override_without_config_text(f.config_override_flag->0@)))
    } else if f.config_override_flag is Some && override_taken(f, f.config_override_flag->0@) {
        Some(SetupProblem::Config(override_taken_text(f.config_override_flag->0@)))
    } else if !f.config_command && !f.has_config {
        Some(SetupProblem::Config(no_config_command_text()))
    } else if f.config_command && f.has_config && first_taken_flag(f.config_tree_longs@, framework_flags(f)) is Some {
        let (option, flag) = first_taken_flag(f.config_tree_longs@, framework_flags(f))->0;
        Some(SetupProblem::Config(config_option_text(flag_claim_text(option, flag))))
    } else {
        None
    }
}

/// A registered path claims the root `help` word.
pub open spec fn claims_help_path(f: SetupFacts) -> bool {
    exists|i: int| 0 <= i < f.registered_paths@.len()
        && crate::cli::help_word::claims_root_help_spec(#[trigger] f.registered_paths@[i]@)
}

/// A registered path claims the root `config` word.
pub open spec fn claims_config_path_spec(f: SetupFacts) -> bool {
    exists|i: int| 0 <= i < f.registered_paths@.len() && claims_config(#[trigger] f.registered_paths@[i]@)
}

/// Check an application's setup, reporting the first problem in this
/// order: a help feature or the `help` word while help handling is off; a
/// registered command that takes the `help` word while it is on (the least
/// such path in string order); the configuration flag problems of
/// `flag_problem`; and, when the `config` command is installed, a
/// registered command that takes the `config` word (the least such path).
pub fn check_setup(f: &SetupFacts) -> (r: Result<(), SetupError>)
    ensures
        help_off_problem(*f) matches Some(p) ==> (r matches Err(e) && is_problem(e, p)),
        help_off_problem(*f) is None && f.help_handling && claims_help_path(*f) ==> exists|least: Seq<char>|
            least_help_claim(f.registered_paths@, least) && (r matches Err(e) && is_problem(
                e,
                SetupProblem::DuplicateCommand(duplicate_help_text(registered_claim_text(least))),
            )),
        help_off_problem(*f) is None && !(f.help_handling && claims_help_path(*f)) ==> match flag_problem(*f) {
            Some(p) => r matches Err(e) && is_problem(e, p),
            None => if f.config_command && f.has_config && claims_config_path_spec(*f) {
                exists|least: Seq<char>| least_config_claim(f.registered_paths@, least) && (r matches Err(e)
                    && is_problem(e, SetupProblem::Config(config_command_text(
                        "this application registers `"@ + least + "`"@,
                    ))))
            } else {
                r is Ok
            },
        },
{
    proof {
        reveal_strlit("command_groups");
        reveal_strlit("topics");
    }
    if !f.help_handling {
        if f.has_command_groups || f.has_topics {
            let feature = if f.has_command_groups { "command_groups" } else { "topics" };
            let a = concat(feature, " is configured while help handling is off — standout cannot render grouped/topic help without intercepting help. Drop the .help_handling(false) call, or drop the ");
            return Err(SetupError::Config(concat(a.as_str(), feature)));
        }
        if f.help_word {
            return Err(SetupError::Config("help_word is set while help handling is off — the `help` word is standout's own subcommand, so there is nothing to install without help interception. Drop the .help_handling(false) call, or drop .help_word(true)".to_owned()));
        }
    } else {
        match registered_help_collision(&f.registered_paths) {
            Some(e) => return Err(e),
            None => {},
        }
    }
    if f.has_term_accessor && !f.has_config {
        return Err(SetupError::Config("term_settings is set without .config(...): there is no configuration to read the accessor from".to_owned()));
    }
    let installs_config_command = f.config_command && f.has_config;
    match &f.config_override_flag {
        Some(flag) => {
            if !f.has_config {
                let a = concat("config_override_flag(\"", flag.as_str());
                return Err(SetupError::Config(concat(a.as_str(), "\") is set without .config(...): there is no configuration for the flag to override")));
            }
            let taken = names(&f.output_flag, flag) || names(&f.output_file_flag, flag) || names(&f.color_flag, flag)
                || names(&f.pager_flag, flag) || (installs_config_command && holds_long(&f.config_tree_longs, flag));
            if taken {
                let a = concat("config_override_flag(\"", flag.as_str());
                return Err(SetupError::Config(concat(a.as_str(), "\") names a flag standout already installs")));
            }
        },
        None => {},
    }
    if !f.config_command && !f.has_config {
        return Err(SetupError::Config("no_config_command() is set without .config(...): there is no `config` command to remove".to_owned()));
    }
    if installs_config_command {
        match taken_flag_claim(f) {
            Some(claim) => {
                let a = concat("config — ", claim.as_str());
                return Err(SetupError::Config(concat(a.as_str(), ", and the `config` command standout installs for the configuration given to .config(...) takes it on its own tree, where clap would propagate the global. Rename the flag, or call .no_config_command() to keep it")));
            },
            None => {},
        }
        match least_config_path(&f.registered_paths) {
            Some(b) => {
                let a = concat("this application registers `", f.registered_paths[b].as_str());
                let claim = concat(a.as_str(), "`");
                let c = concat("config — ", claim.as_str());
                return Err(SetupError::Config(concat(c.as_str(), ", and standout installs a `config` command of its own for the configuration given to .config(...). Rename the application's command, or call .no_config_command() to keep the name")));
            },
            None => {},
        }
    }
    Ok(())
}


/// Two dots stand at position `i` of `p`.
pub open spec fn double_dot_at(p: Seq<char>, i: int) -> bool {
    p[i] == '.' && p[i + 1] == '.'
}

/// A registration path with a blank command name: not the empty path, and
/// it starts or ends with `.` or holds `..`.
pub open spec fn blank_segment(p: Seq<char>) -> bool {
    &&& p.len() > 0
    &&& (p[0] == '.' || p[p.len() - 1] == '.' || exists|i: int| 0 <= i < p.len() - 1 && #[trigger] double_dot_at(p, i))
}

/// Whether a registration path has a blank command name.
fn has_blank_segment(path: &str) -> (b: bool)
    ensures
        b == blank_segment(path@),
{
    let p = chars_of(path);
    let n = p.len();
    if n == 0 {
        return false;
    }
    if p[0] == '.' || p[n - 1] == '.' {
        return true;
    }
    let mut i: usize = 0;
    while i < n - 1
        invariant
            n == p@.len(),
            n > 0,
            p@ == path@,
            forall|k: int| 0 <= k < i ==> !#[trigger] double_dot_at(p@, k),
        decreases n - i,
    {
        if p[i] == '.' && p[i + 1] == '.' {
            proof {
                assert(double_dot_at(p@, i as int));
            }
            return true;
        }
        i = i + 1;
    }
    false
}

/// The text for a registration path with a blank command name.
pub open spec fn blank_segment_text(path: Seq<char>) -> Seq<char> {
    "Registration path `"@ + path
        + "` has a blank command name: a path is `.`-separated command names, and only the empty path names something (the root command of a flat app). Drop the leading, trailing or doubled `.`."@
}

/// `least` is the smallest, in string order, of the paths with a blank command name.
pub open spec fn least_blank(paths: Seq<String>, least: Seq<char>) -> bool {
    &&& exists|i: int| 0 <= i < paths.len() && paths[i]@ == least
    &&& blank_segment(least)
    &&& forall|i: int| 0 <= i < paths.len() && blank_segment(#[trigger] paths[i]@) ==> !lex_lt(paths[i]@, least)
}

/// Check the registration paths (of commands and questionnaires): a path
/// with a blank command name is refused, naming the least such path in
/// string order.
pub fn malformed_registrations(paths: &Vec<String>) -> (r: Result<(), SetupError>)
    ensures
        (forall|i: int| 0 <= i < paths@.len() ==> !blank_segment(#[trigger] paths@[i]@)) ==> r is Ok,
        (exists|i: int| 0 <= i < paths@.len() && blank_segment(#[trigger] paths@[i]@)) ==> exists|least: Seq<char>|
            least_blank(paths@, least) && (r matches Err(SetupError::Config(m)) && m@ == blank_segment_text(least)),
{
    let mut best: Option<usize> = None;
    let mut i: usize = 0;
    while i < paths.len()
        invariant
            i <= paths@.len(),
            match best {
                Some(b) => b < i && blank_segment(paths@[b as int]@)
                    && forall|k: int| 0 <= k < i && blank_segment(#[trigger] paths@[k]@)
                        ==> !lex_lt(paths@[k]@, paths@[b as int]@),
                None => forall|k: int| 0 <= k < i ==> !blank_segment(#[trigger] paths@[k]@),
            },
        decreases paths@.len() - i,
    {
        if has_blank_segment(paths[i].as_str()) {
            match best {
                None => {
                    best = Some(i);
                    proof {
                        lemma_lex_lt_trichotomy(paths@[i as int]@, paths@[i as int]@);
                    }
                },
                Some(b) => {
                    if lex_less(&chars_of(paths[i].as_str()), &chars_of(paths[b].as_str())) {
                        best = Some(i);
                        proof {
                            lemma_lex_lt_trichotomy(paths@[i as int]@, paths@[i as int]@);
                            assert forall|k: int| 0 <= k < i + 1 && blank_segment(#[trigger] paths@[k]@)
                                implies !lex_lt(paths@[k]@, paths@[i as int]@) by {
                                if k < i {
                                    lemma_lex_lt_trichotomy(paths@[k]@, paths@[b as int]@);
                                    if lex_lt(paths@[k]@, paths@[i as int]@) {
                                        lemma_lex_lt_transitive(paths@[k]@, paths@[i as int]@, paths@[b as int]@);
                                    }
                                }
                            }
                        }
                    }
                },
            }
        }
        i = i + 1;
    }
    match best {
        None => Ok(()),
        Some(b) => {
            proof {
                assert(least_blank(paths@, paths@[b as int]@));
            }
            let a = concat("Registration path `", paths[b].as_str());
            Err(SetupError::Config(concat(a.as_str(), "` has a blank command name: a path is `.`-separated command names, and only the empty path names something (the root command of a flat app). Drop the leading, trailing or doubled `.`.")))
        },
    }
}

/// Where the application's theme comes from.
#[derive(Debug, Clone, PartialEq, Eq)]
pub enum ThemeSource {
    /// The theme given to `.theme(...)`.
    Given,
    /// The registered stylesheet of this name, chosen by `.default_theme(...)`.
    Registered(String),
    /// No theme of the application's own: the framework's base theme alone.
    Unthemed,
}

/// The text of the error for a theme given beside registered stylesheets.
pub open spec fn theme_and_styles_text() -> Seq<char> {
    "the app configures both .theme(...) and .styles(...)/.styles_dir(...); .theme(...) replaces the whole stylesheet registry, so keep one of them — merge the stylesheets into the Theme, or drop the .theme(...) call and select a registered theme with .default_theme(name)"@
}

/// Some name among `names` is `name`.
pub open spec fn lists_name(names: Seq<String>, name: Seq<char>) -> bool {
    exists|i: int| 0 <= i < names.len() && names[i]@ == name
}

/// Choose the application's theme. `stylesheets` holds the names the
/// stylesheet registry loads a theme for, when one is configured. A theme
/// given beside a registry is a configuration error; a given theme is
/// used; a default theme named without a registry, or one the registry does
/// not load, is not found; a registered default theme is used; with no
/// default theme, none of the application's own.
pub fn configured_theme(theme_given: bool, stylesheets: Option<&Vec<String>>, default_theme: Option<String>) -> (r:
    Result<ThemeSource, SetupError>)
    ensures
        theme_given && stylesheets is Some ==> (r matches Err(SetupError::Config(m)) && m@
            == theme_and_styles_text()),
        theme_given && stylesheets is None ==> r == Ok::<ThemeSource, SetupError>(ThemeSource::Given),
        !theme_given ==> match default_theme {
            None => r == Ok::<ThemeSource, SetupError>(ThemeSource::Unthemed),
            Some(n) => match stylesheets {
                Some(names) => if lists_name(names@, n@) {
                    r == Ok::<ThemeSource, SetupError>(ThemeSource::Registered(n))
                } else {
                    (r matches Err(SetupError::ThemeNotFound(m)) && m@ == n@)
                },
                None => (r matches Err(SetupError::ThemeNotFound(m)) && m@ == n@),
            },
        },
{
    if theme_given {
        return match stylesheets {
            Some(_) => Err(SetupError::Config("the app configures both .theme(...) and .styles(...)/.styles_dir(...); .theme(...) replaces the whole stylesheet registry, so keep one of them — merge the stylesheets into the Theme, or drop the .theme(...) call and select a registered theme with .default_theme(name)".to_owned())),
            None => Ok(ThemeSource::Given),
        };
    }
    let name = match default_theme {
        None => return Ok(ThemeSource::Unthemed),
        Some(n) => n,
    };
    let names = match stylesheets {
        None => return Err(SetupError::ThemeNotFound(name)),
        Some(names) => names,
    };
    let mut i: usize = 0;
    while i < names.len()
        invariant
            i <= names@.len(),
            !theme_given,
            stylesheets == Some(names),
            default_theme == Some(name),
            forall|k: int| 0 <= k < i ==> names@[k]@ != name@,
        decreases names@.len() - i,
    {
        if names[i] == name {
            return Ok(ThemeSource::Registered(name));
        }
        i = i + 1;
    }
    Err(SetupError::ThemeNotFound(name))
}

} // verus!
