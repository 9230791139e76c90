//! The `help` word: with help handling on, the framework installs a `help`
//! subcommand of its own, so an application command that claims the word
//! is a setup error.

use vstd::prelude::*;

use crate::cli::config::{has_prefix, starts_with};
use crate::cli::default_command::{answers_to, CommandNames};
use crate::setup::SetupError;
use crate::text::{chars_equal, chars_of, concat, lex_less, lex_lt, lemma_lex_lt_transitive, lemma_lex_lt_trichotomy};

verus! {

broadcast use vstd::string::group_string_axioms;

/// The claim when the application's own command definition declares `help`.
pub const DECLARED_CLAIM: &'static str =
    "this application's clap `Command` declares `help` (as a subcommand name or alias)";

/// A registered command path claims the root `help` word: it is `help`, or
/// lies under it.
pub open spec fn claims_root_help_spec(path: Seq<char>) -> bool {
    path == "help"@ || starts_with(path, "help."@)
}

/// Whether a registered command path claims the root `help` word.
pub fn claims_root_help(path: &str) -> (b: bool)
    ensures
        b == claims_root_help_spec(path@),
{
    let p = chars_of(path);
    chars_equal(&p, &chars_of("help")) || has_prefix(&p, &chars_of("help."))
}

/// The claim a registered command path makes on the `help` word.
pub open spec fn registered_claim_text(path: Seq<char>) -> Seq<char> {
    if path == "help"@ {
        "this application registers a `help` command"@
    } else {
        "this application registers `"@ + path + "`, hanging a command off the same root word"@
    }
}

/// How the registered command at `path` claims the `help` word.
pub fn registered_claim(path: &str) -> (claim: String)
    ensures
        claim@ == registered_claim_text(path@),
{
    if chars_equal(&chars_of(path), &chars_of("help")) {
        "this application registers a `help` command".to_owned()
    } else {
        let a = concat("this application registers `", path);
        concat(a.as_str(), "`, hanging a command off the same root word")
    }
}

/// The text of the error for a claim on the `help` word.
pub open spec fn duplicate_help_text(claim: Seq<char>) -> Seq<char> {
    "help — "@ + claim
        + ", and standout installs a `help` word of its own, since help handling is on by default. Rename the application's command, or call .help_handling(false) to keep the name (help is then clap's own, and command_groups and topics become unavailable)"@
}

/// The setup error for a claim on the `help` word.
pub fn duplicate_help_word(claim: &str) -> (e: SetupError)
    ensures
        e matches SetupError::DuplicateCommand(m) && m@ == duplicate_help_text(claim@),
{
    let a = concat("help — ", claim);
    SetupError::DuplicateCommand(concat(
        a.as_str(),
        ", and standout installs a `help` word of its own, since help handling is on by default. Rename the application's command, or call .help_handling(false) to keep the name (help is then clap's own, and command_groups and topics become unavailable)",
    ))
}

/// `least` is the smallest, in string order, of the paths that claim the
/// root `help` word.
pub open spec fn least_help_claim(paths: Seq<String>, least: Seq<char>) -> bool {
    &&& exists|i: int| 0 <= i < paths.len() && paths[i]@ == least
    &&& claims_root_help_spec(least)
    &&& forall|i: int| 0 <= i < paths.len() && claims_root_help_spec(#[trigger] paths[i]@) ==> !lex_lt(paths[i]@, least)
}

/// With help handling on, the error for the registered command paths when
/// one claims the root `help` word: it names the least such path in
/// string order. None when no path claims it.
pub fn registered_help_collision(paths: &Vec<String>) -> (e: Option<SetupError>)
    ensures
        (forall|i: int| 0 <= i < paths@.len() ==> !claims_root_help_spec(#[trigger] paths@[i]@)) ==> e is None,
        (exists|i: int| 0 <= i < paths@.len() && claims_root_help_spec(#[trigger] paths@[i]@)) ==>
            exists|least: Seq<char>| least_help_claim(paths@, least) && (e matches Some(SetupError::DuplicateCommand(m))
                && m@ == duplicate_help_text(registered_claim_text(least))),
{
    let mut best: Option<usize> = None;
    let mut i: usize = 0;
    while i < paths.len()
        invariant
            i <= paths@.len(),
            match best {
                Some(b) => b < i && claims_root_help_spec(paths@[b as int]@)
                    && forall|k: int| 0 <= k < i && claims_root_help_spec(#[trigger] paths@[k]@)
                        ==> !lex_lt(paths@[k]@, paths@[b as int]@),
                None => forall|k: int| 0 <= k < i ==> !claims_root_help_spec(#[trigger] paths@[k]@),
            },
        decreases paths@.len() - i,
    {
        if claims_root_help(paths[i].as_str()) {
            match best {
                None => {
                    best = Some(i);
                    proof {
                        lemma_lex_lt_trichotomy(paths@[i as int]@, paths@[i as int]@);
                    }
                },
                Some(b) => {
                    let here = chars_of(paths[i].as_str());
                    let so_far = chars_of(paths[b].as_str());
                    if lex_less(&here, &so_far) {
                        best = Some(i);
                        proof {
                            lemma_lex_lt_trichotomy(paths@[i as int]@, paths@[i as int]@);
                            assert forall|k: int| 0 <= k < i + 1 && claims_root_help_spec(#[trigger] paths@[k]@)
                                implies !lex_lt(paths@[k]@, paths@[i as int]@) by {
                                if k < i {
                                    lemma_lex_lt_trichotomy(paths@[k]@, paths@[b as int]@);
                                    if lex_lt(paths@[k]@, paths@[i as int]@) {
                                        lemma_lex_lt_transitive(paths@[k]@, paths@[i as int]@, paths@[b as int]@);
                                    }
                                }
                            }
                        }
                    }
                },
            }
        }
        i = i + 1;
    }
    match best {
        None => None,
        Some(b) => {
            let claim = registered_claim(paths[b].as_str());
            let e = duplicate_help_word(claim.as_str());
            proof {
                assert(least_help_claim(paths@, paths@[b as int]@));
            }
            Some(e)
        },
    }
}

/// How many subcommands answer to the word `help`.
pub open spec fn help_claims(subs: Seq<CommandNames>) -> nat
    decreases subs.len(),
{
    if subs.len() == 0 {
        0
    } else {
        help_claims(subs.drop_last()) + if answers_to(subs.last(), "help"@) { 1nat } else { 0nat }
    }
}

/// Whether a subcommand answers to `help`, by its name or an alias.
fn claims_help(c: &CommandNames) -> (b: bool)
    ensures
        b == answers_to(*c, "help"@),
{
    let word = "help".to_owned();
    proof {
        reveal_strlit("help");
    }
    if c.name == word {
        return true;
    }
    let mut j: usize = 0;
    while j < c.aliases.len()
        invariant
            j <= c.aliases@.len(),
            word@ == "help"@,
            forall|k: int| 0 <= k < j ==> c.aliases@[k]@ != "help"@,
        decreases c.aliases@.len() - j,
    {
        if c.aliases[j] == word {
            return true;
        }
        j = j + 1;
    }
    false
}

/// With help handling on, the error when the application's command
/// definition, with the framework's own `help` word added, has more than
/// one subcommand answering to `help`. None when help handling is off.
pub fn help_word_collision(help_handling: bool, subs: &Vec<CommandNames>) -> (e: Option<SetupError>)
    ensures
        !help_handling ==> e is None,
        help_handling ==> (help_claims(subs@) > 1 <==> e is Some),
        e matches Some(err) ==> (err matches SetupError::DuplicateCommand(m)
            && m@ == duplicate_help_text(DECLARED_CLAIM@)),
{
    if !help_handling {
        return None;
    }
    let mut claims: usize = 0;
    let mut i: usize = 0;
    while i < subs.len()
        invariant
            i <= subs@.len(),
            claims == help_claims(subs@.take(i as int)),
            claims <= i,
        decreases subs@.len() - i,
    {
        proof {
            assert(subs@.take(i + 1).drop_last() =~= subs@.take(i as int));
        }
        if claims_help(&subs[i]) {
            claims = claims + 1;
        }
        i = i + 1;
    }
    proof {
        assert(subs@.take(subs@.len() as int) =~= subs@);
    }
    if claims > 1 {
        Some(duplicate_help_word(DECLARED_CLAIM))
    } else {
        None
    }
}

} // verus!
