//! Whether the command tree reaches each registered command path: a handler
//! registered under a path no invocation reaches is a setup error, with a
//! hint at the spelling the tree declares when one is near.

use vstd::prelude::*;

use crate::cli::dispatch::{path_segments, path_segments_of, segment_texts};
use crate::setup::SetupError;
use crate::text::{chars_equal, chars_of, concat, join, join_seq, lex_less, lex_lt, string_of};

verus! {

broadcast use vstd::string::group_string_axioms;

/// A command's name, the aliases clap shows for it, and its subcommands.
#[derive(Debug)]
pub struct CommandTree {
    /// The command's name.
    pub name: String,
    /// Its visible aliases.
    pub aliases: Vec<String>,
    /// Its subcommands, in the order they were added.
    pub subs: Vec<CommandTree>,
}

/// The first of the commands named `name`.
pub open spec fn named_sub(subs: Seq<CommandTree>, name: Seq<char>) -> Option<CommandTree>
    decreases subs.len(),
{
    if subs.len() == 0 {
        None
    } else if subs[0].name@ == name {
        Some(subs[0])
    } else {
        named_sub(subs.drop_first(), name)
    }
}

/// Following the segments by canonical names (never aliases) from `t`
/// reaches a command.
pub open spec fn reaches(t: CommandTree, segments: Seq<Seq<char>>) -> bool
    decreases segments.len(),
{
    if segments.len() == 0 {
        true
    } else {
        match named_sub(t.subs@, segments[0]) {
            Some(s) => reaches(s, segments.drop_first()),
            None => false,
        }
    }
}

/// The first of the commands named `name`.
fn find_named<'a>(subs: &'a Vec<CommandTree>, name: &String) -> (found: Option<&'a CommandTree>)
    ensures
        match found {
            Some(s) => named_sub(subs@, name@) == Some(*s),
            None => named_sub(subs@, name@) is None,
        },
{
    let mut j: usize = 0;
    proof {
        assert(subs@.skip(0) =~= subs@);
    }
    while j < subs.len()
        invariant
            j <= subs@.len(),
            named_sub(subs@, name@) == named_sub(subs@.skip(j as int), name@),
        decreases subs@.len() - j,
    {
        proof {
            assert(subs@.skip(j as int)[0] == subs@[j as int]);
            assert(subs@.skip(j as int).drop_first() =~= subs@.skip(j + 1));
        }
        if subs[j].name == *name {
            return Some(&subs[j]);
        }
        j = j + 1;
    }
    proof {
        assert(subs@.skip(subs@.len() as int) =~= Seq::<CommandTree>::empty());
    }
    None
}

/// Whether following the segments by canonical names from `tree` reaches a
/// command.
pub fn reaches_path(tree: &CommandTree, segments: &Vec<String>) -> (b: bool)
    ensures
        b == reaches(*tree, segment_texts(segments@)),
{
    let ghost segs = segment_texts(segments@);
    let mut current = tree;
    let mut i: usize = 0;
    proof {
        assert(segs.skip(0) =~= segs);
    }
    while i < segments.len()
        invariant
            i <= segments@.len(),
            segs == segment_texts(segments@),
            reaches(*tree, segs) == reaches(*current, segs.skip(i as int)),
        decreases segments@.len() - i,
    {
        proof {
            assert(segs.skip(i as int)[0] == segments@[i as int]@);
            assert(segs.skip(i as int).drop_first() =~= segs.skip(i + 1));
        }
        match find_named(&current.subs, &segments[i]) {
            Some(s) => {
                current = s;
            },
            None => {
                return false;
            },
        }
        i = i + 1;
    }
    true
}

/// The text with each `-` as `_`.
pub open spec fn underscored(s: Seq<char>) -> Seq<char> {
    s.map_values(|c: char| if c == '-' { '_' } else { c })
}

/// The first of the commands whose name matches `segment` once `-` and `_`
/// are taken as one.
pub open spec fn variant_sub(subs: Seq<CommandTree>, segment: Seq<char>) -> Option<CommandTree>
    decreases subs.len(),
{
    if subs.len() == 0 {
        None
    } else if underscored(subs[0].name@) == underscored(segment) {
        Some(subs[0])
    } else {
        variant_sub(subs.drop_first(), segment)
    }
}

/// The first of the commands that has `segment` as an alias.
pub open spec fn alias_sub(subs: Seq<CommandTree>, segment: Seq<char>) -> Option<CommandTree>
    decreases subs.len(),
{
    if subs.len() == 0 {
        None
    } else if exists|k: int| 0 <= k < subs[0].aliases@.len() && subs[0].aliases@[k]@ == segment {
        Some(subs[0])
    } else {
        alias_sub(subs.drop_first(), segment)
    }
}

/// The declared names the segments lead to from `t`, each segment matched
/// by name up to `-`/`_`, else by alias; and whether an alias was needed on
/// the way. None when some segment matches neither way.
pub open spec fn declared_walk(t: CommandTree, segments: Seq<Seq<char>>) -> Option<(Seq<Seq<char>>, bool)>
    decreases segments.len(),
{
    if segments.len() == 0 {
        Some((seq![], false))
    } else {
        let (sub, by_alias) = match variant_sub(t.subs@, segments[0]) {
            Some(s) => (Some(s), false),
            None => (alias_sub(t.subs@, segments[0]), true),
        };
        match sub {
            None => None,
            Some(s) => match declared_walk(s, segments.drop_first()) {
                None => None,
                Some((names, a)) => Some((seq![s.name@] + names, by_alias || a)),
            },
        }
    }
}

/// The text with each `-` as `_`.
fn underscore(s: &String) -> (u: Vec<char>)
    ensures
        u@ == underscored(s@),
{
    let chars = chars_of(s.as_str());
    let mut u: Vec<char> = Vec::new();
    let mut i: usize = 0;
    while i < chars.len()
        invariant
            i <= chars@.len(),
            chars@ == s@,
            u@ == underscored(chars@.take(i as int)),
        decreases chars@.len() - i,
    {
        let c = chars[i];
        u.push(if c == '-' { '_' } else { c });
        proof {
            assert(u@ =~= underscored(chars@.take(i + 1)));
        }
        i = i + 1;
    }
    proof {
        assert(chars@.take(chars@.len() as int) =~= chars@);
    }
    u
}

/// Whether the command has `segment` as an alias.
fn has_alias(t: &CommandTree, segment: &String) -> (b: bool)
    ensures
        b == exists|k: int| 0 <= k < t.aliases@.len() && t.aliases@[k]@ == segment@,
{
    let mut k: usize = 0;
    while k < t.aliases.len()
        invariant
            k <= t.aliases@.len(),
            forall|m: int| 0 <= m < k ==> t.aliases@[m]@ != segment@,
        decreases t.aliases@.len() - k,
    {
        if t.aliases[k] == *segment {
            return true;
        }
        k = k + 1;
    }
    false
}

/// The first of the commands matching `segment` up to `-`/`_`.
fn find_variant<'a>(subs: &'a Vec<CommandTree>, segment: &String) -> (found: Option<&'a CommandTree>)
    ensures
        match found {
            Some(s) => variant_sub(subs@, segment@) == Some(*s),
            None => variant_sub(subs@, segment@) is None,
        },
{
    let wanted = underscore(segment);
    let mut j: usize = 0;
    proof {
        assert(subs@.skip(0) =~= subs@);
    }
    while j < subs.len()
        invariant
            j <= subs@.len(),
            wanted@ == underscored(segment@),
            variant_sub(subs@, segment@) == variant_sub(subs@.skip(j as int), segment@),
        decreases subs@.len() - j,
    {
        proof {
            assert(subs@.skip(j as int)[0] == subs@[j as int]);
            assert(subs@.skip(j as int).drop_first() =~= subs@.skip(j + 1));
        }
        if chars_equal(&underscore(&subs[j].name), &wanted) {
            return Some(&subs[j]);
        }
        j = j + 1;
    }
    proof {
        assert(subs@.skip(subs@.len() as int) =~= Seq::<CommandTree>::empty());
    }
    None
}

/// The first of the commands that has `segment` as an alias.
fn find_alias<'a>(subs: &'a Vec<CommandTree>, segment: &String) -> (found: Option<&'a CommandTree>)
    ensures
        match found {
            Some(s) => alias_sub(subs@, segment@) == Some(*s),
            None => alias_sub(subs@, segment@) is None,
        },
{
    let mut j: usize = 0;
    proof {
        assert(subs@.skip(0) =~= subs@);
    }
    while j < subs.len()
        invariant
            j <= subs@.len(),
            alias_sub(subs@, segment@) == alias_sub(subs@.skip(j as int), segment@),
        decreases subs@.len() - j,
    {
        proof {
            assert(subs@.skip(j as int)[0] == subs@[j as int]);
            assert(subs@.skip(j as int).drop_first() =~= subs@.skip(j + 1));
        }
        if has_alias(&subs[j], segment) {
            return Some(&subs[j]);
        }
        j = j + 1;
    }
    proof {
        assert(subs@.skip(subs@.len() as int) =~= Seq::<CommandTree>::empty());
    }
    None
}

/// Strings as their texts.
pub open spec fn texts(v: Seq<String>) -> Seq<Seq<char>> {
    v.map_values(|s: String| s@)
}

/// The declared names the segments lead to, and whether an alias was needed.
fn declared_variant_in(tree: &CommandTree, segments: &Vec<String>) -> (found: Option<(Vec<String>, bool)>)
    ensures
        match found {
            Some((names, a)) => declared_walk(*tree, segment_texts(segments@)) == Some((texts(names@), a)),
            None => declared_walk(*tree, segment_texts(segments@)) is None,
        },
{
    let ghost segs = segment_texts(segments@);
    let mut current = tree;
    let mut declared: Vec<String> = Vec::new();
    let mut through_alias = false;
    let mut i: usize = 0;
    proof {
        assert(segs.skip(0) =~= segs);
        assert(texts(declared@) + seq![] =~= texts(declared@));
    }
    while i < segments.len()
        invariant
            i <= segments@.len(),
            segs == segment_texts(segments@),
            match declared_walk(*current, segs.skip(i as int)) {
                None => declared_walk(*tree, segs) is None,
                Some((n, a)) => declared_walk(*tree, segs) == Some((texts(declared@) + n, through_alias || a)),
            },
        decreases segments@.len() - i,
    {
        let ghost rest = segs.skip(i as int);
        proof {
            assert(rest[0] == segments@[i as int]@);
            assert(rest.drop_first() =~= segs.skip(i + 1));
        }
        let next = match find_variant(&current.subs, &segments[i]) {
            Some(s) => Some((s, false)),
            None => match find_alias(&current.subs, &segments[i]) {
                Some(s) => Some((s, true)),
                None => None,
            },
        };
        match next {
            None => {
                return None;
            },
            Some((s, by_alias)) => {
                let ghost before = declared@;
                declared.push(s.name.clone());
                proof {
                    assert(texts(declared@) =~= texts(before).push(s.name@));
                    match declared_walk(*s, segs.skip(i + 1)) {
                        None => {},
                        Some((n, a)) => {
                            assert(texts(before) + (seq![s.name@] + n) =~= texts(declared@) + n);
                        },
                    }
                }
                if by_alias {
                    through_alias = true;
                }
                current = s;
            },
        }
        i = i + 1;
    }
    proof {
        assert(segs.skip(segments@.len() as int) =~= Seq::<Seq<char>>::empty());
        assert(texts(declared@) + Seq::<Seq<char>>::empty() =~= texts(declared@));
    }
    Some((declared, through_alias))
}

/// The text with each `.` as a space.
pub open spec fn spaced(s: Seq<char>) -> Seq<char> {
    s.map_values(|c: char| if c == '.' { ' ' } else { c })
}

/// The hint an unreachable path's error gives: the declared spelling the
/// path matches up to `-`/`_`, or the declared command it names by alias,
/// or the advice to register under a declared name.
pub open spec fn reach_hint(path: Seq<char>, walk: Option<(Seq<Seq<char>>, bool)>) -> Seq<char> {
    match walk {
        Some((names, by_alias)) => if by_alias {
            " The CLI declares `"@ + spaced(join_seq(names, "."@)) + "` and accepts `"@ + spaced(path)
                + "` as an alias for it — clap reports the declared name to dispatch, so register the handler under `"@
                + spaced(join_seq(names, "."@)) + "`."@
        } else {
            " The CLI declares `"@ + spaced(join_seq(names, "."@))
                + "` — a registered name must match the CLI definition exactly (clap's derive names subcommands in kebab-case)."@
        },
        None => " Register the handler under a name the CLI declares, or drop the registration."@,
    }
}

/// The text for a registered path that no invocation reaches.
pub open spec fn unreachable_text(path: Seq<char>, tree: CommandTree) -> Seq<char> {
    "No invocation reaches `"@ + spaced(path)
        + "`: this application registers a handler for it, but its clap `Command` declares no such subcommand."@
        + reach_hint(path, declared_walk(tree, path_segments_of(path)))
}

/// No invocation reaches the registered path: following its segments by
/// canonical names finds no command.
pub open spec fn unreachable(tree: CommandTree, path: Seq<char>) -> bool {
    !reaches(tree, path_segments_of(path))
}

/// The text with each `.` as a space.
fn spaced_text(s: &Vec<char>) -> (t: Vec<char>)
    ensures
        t@ == spaced(s@),
{
    let mut t: Vec<char> = Vec::new();
    let mut i: usize = 0;
    while i < s.len()
        invariant
            i <= s@.len(),
            t@ == spaced(s@.take(i as int)),
        decreases s@.len() - i,
    {
        let c = s[i];
        t.push(if c == '.' { ' ' } else { c });
        proof {
            assert(t@ =~= spaced(s@.take(i + 1)));
        }
        i = i + 1;
    }
    proof {
        assert(s@.take(s@.len() as int) =~= s@);
    }
    t
}

/// The names joined with `.`, each `.` then shown as a space.
fn spaced_names(names: &Vec<String>) -> (t: String)
    ensures
        t@ == spaced(join_seq(texts(names@), "."@)),
{
    let mut parts: Vec<Vec<char>> = Vec::new();
    let mut i: usize = 0;
    while i < names.len()
        invariant
            i <= names@.len(),
            parts@.map_values(|p: Vec<char>| p@) == texts(names@).take(i as int),
        decreases names@.len() - i,
    {
        let ghost before = parts@;
        parts.push(chars_of(names[i].as_str()));
        proof {
            assert(parts@.map_values(|p: Vec<char>| p@) =~= before.map_values(|p: Vec<char>| p@).push(names@[i as int]@));
            assert(texts(names@).take(i + 1) =~= texts(names@).take(i as int).push(names@[i as int]@));
        }
        i = i + 1;
    }
    proof {
        assert(texts(names@).take(names@.len() as int) =~= texts(names@));
    }
    string_of(&spaced_text(&join(&parts, &chars_of("."))))
}

/// The error for a registered path that no invocation reaches.
fn unreachable_error(path: &String, tree: &CommandTree) -> (e: SetupError)
    ensures
        e matches SetupError::Config(m) && m@ == unreachable_text(path@, *tree),
{
    let segments = path_segments(path.as_str());
    let shown = string_of(&spaced_text(&chars_of(path.as_str())));
    let hint = match declared_variant_in(tree, &segments) {
        Some((names, by_alias)) => {
            let declared = spaced_names(&names);
            if by_alias {
                let a = concat(" The CLI declares `", declared.as_str());
                let b = concat(a.as_str(), "` and accepts `");
                let c = concat(b.as_str(), shown.as_str());
                let d = concat(
                    c.as_str(),
                    "` as an alias for it — clap reports the declared name to dispatch, so register the handler under `",
                );
                let e = concat(d.as_str(), declared.as_str());
                concat(e.as_str(), "`.")
            } else {
                let a = concat(" The CLI declares `", declared.as_str());
                concat(
                    a.as_str(),
                    "` — a registered name must match the CLI definition exactly (clap's derive names subcommands in kebab-case).",
                )
            }
        },
        None => " Register the handler under a name the CLI declares, or drop the registration.".to_owned(),
    };
    let a = concat("No invocation reaches `", shown.as_str());
    let b = concat(
        a.as_str(),
        "`: this application registers a handler for it, but its clap `Command` declares no such subcommand.",
    );
    SetupError::Config(concat(b.as_str(), hint.as_str()))
}

/// Check the registered command paths against the command tree: when some
/// path is reached by no invocation (its segments, by canonical names,
/// lead to no command), the first such path in string order is a
/// configuration error, hinting at the declared spelling it matches up to
/// `-`/`_` or by alias.
pub fn unreachable_registrations(registered: &Vec<String>, tree: &CommandTree) -> (r: Result<(), SetupError>)
    ensures
        (forall|i: int| 0 <= i < registered@.len() ==> !unreachable(*tree, #[trigger] registered@[i]@)) ==> r is Ok,
        (exists|i: int| 0 <= i < registered@.len() && unreachable(*tree, #[trigger] registered@[i]@)) ==> exists|i: int|
            {
                &&& 0 <= i < registered@.len()
                &&& unreachable(*tree, #[trigger] registered@[i]@)
                &&& forall|j: int| 0 <= j < registered@.len() && unreachable(*tree, #[trigger] registered@[j]@)
                    ==> !lex_lt(registered@[j]@, registered@[i]@)
                &&& r matches Err(SetupError::Config(m)) && m@ == unreachable_text(registered@[i]@, *tree)
            },
{
    let mut best: Option<usize> = None;
    let mut i: usize = 0;
    while i < registered.len()
        invariant
            i <= registered@.len(),
            match best {
                Some(b) => b < i && unreachable(*tree, registered@[b as int]@) && forall|j: int|
                    0 <= j < i && unreachable(*tree, #[trigger] registered@[j]@) ==> !lex_lt(
                        registered@[j]@,
                        registered@[b as int]@,
                    ),
                None => forall|j: int| 0 <= j < i ==> !unreachable(*tree, #[trigger] registered@[j]@),
            },
        decreases registered@.len() - i,
    {
        let segments = path_segments(registered[i].as_str());
        if !reaches_path(tree, &segments) {
            match best {
                None => {
                    proof {
                        crate::text::lemma_lex_lt_trichotomy(registered@[i as int]@, registered@[i as int]@);
                    }
                    best = Some(i);
                },
                Some(b) => {
                    if lex_less(&chars_of(registered[i].as_str()), &chars_of(registered[b].as_str())) {
                        proof {
                            crate::text::lemma_lex_lt_trichotomy(registered@[i as int]@, registered@[i as int]@);
                            assert forall|j: int| 0 <= j < i + 1 && unreachable(*tree, #[trigger] registered@[j]@)
                                implies !lex_lt(registered@[j]@, registered@[i as int]@) by {
                                if j < i && lex_lt(registered@[j]@, registered@[i as int]@) {
                                    crate::text::lemma_lex_lt_transitive(
                                        registered@[j]@,
                                        registered@[i as int]@,
                                        registered@[b as int]@,
                                    );
                                }
                            }
                        }
                        best = Some(i);
                    }
                },
            }
        }
        i = i + 1;
    }
    match best {
        None => Ok(()),
        Some(b) => Err(unreachable_error(&registered[b], tree)),
    }
}

} // verus!
