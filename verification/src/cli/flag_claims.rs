//! Long flags the application's command tree already declares: a flag the
//! framework installs, or the configuration override flag, must not be one
//! of them. clap catches such a duplicate only with a debug assertion, so a
//! release build would ship a flag answering to one of the two definitions.

use vstd::prelude::*;

use crate::setup::SetupError;
use crate::text::{chars_of, concat, join, join_seq, string_of};

verus! {

broadcast use vstd::string::group_string_axioms;

/// The id of the framework's `--output` argument.
pub const OUTPUT_MODE_ARG: &'static str = "_output_mode";

/// The id of the framework's `--output-file` argument.
pub const OUTPUT_FILE_ARG: &'static str = "_output_file_path";

/// The id of the framework's `--color` argument.
pub const COLOR_ARG: &'static str = "_color";

/// The id of the framework's `--no-pager` argument.
pub const NO_PAGER_ARG: &'static str = "_no_pager";

/// The id of the framework's configuration override argument.
pub const CONFIG_OVERRIDE_ARG: &'static str = "_config_override";

/// An argument's id and the long spellings it answers to.
#[derive(Debug, Clone)]
pub struct ArgLongs {
    /// The argument's id.
    pub id: String,
    /// Its long flag, if any.
    pub long: Option<String>,
    /// Its long aliases, hidden ones included.
    pub aliases: Vec<String>,
}

/// A command, the long spellings it is invoked by, its arguments, and its
/// subcommands.
#[derive(Debug)]
pub struct FlagTree {
    /// The command's name.
    pub name: String,
    /// Its own long invocation flag, if any.
    pub long_flag: Option<String>,
    /// The aliases of that flag.
    pub long_flag_aliases: Vec<String>,
    /// Its arguments.
    pub args: Vec<ArgLongs>,
    /// Its subcommands.
    pub subs: Vec<FlagTree>,
}

/// `names` holds the text `flag`.
pub open spec fn holds(names: Seq<String>, flag: Seq<char>) -> bool {
    exists|j: int| 0 <= j < names.len() && names[j]@ == flag
}

/// The argument answers to `--flag`, by its long name or an alias.
pub open spec fn arg_answers(a: ArgLongs, flag: Seq<char>) -> bool {
    (a.long matches Some(l) && l@ == flag) || holds(a.aliases@, flag)
}

/// The argument is one the framework installs.
pub open spec fn is_framework_arg(id: Seq<char>) -> bool {
    id == OUTPUT_MODE_ARG@ || id == OUTPUT_FILE_ARG@ || id == COLOR_ARG@ || id == NO_PAGER_ARG@
        || id == CONFIG_OVERRIDE_ARG@
}

/// The command is invoked by `--flag`, by its long flag or an alias of it.
pub open spec fn invoked_by(t: FlagTree, flag: Seq<char>) -> bool {
    (t.long_flag matches Some(l) && l@ == flag) || holds(t.long_flag_aliases@, flag)
}

/// The command itself declares `--flag`: as its long invocation flag, or as
/// the long name or an alias of one of its arguments that the framework did
/// not install.
pub open spec fn declares_here(t: FlagTree, flag: Seq<char>) -> bool {
    invoked_by(t, flag) || exists|i: int|
        0 <= i < t.args@.len() && !is_framework_arg(#[trigger] t.args@[i].id@) && arg_answers(t.args@[i], flag)
}

/// The path (names from the root) of the first command, depth first, that
/// declares `--flag`; `path` names the commands above `t`.
pub open spec fn declaring_path(t: FlagTree, flag: Seq<char>, path: Seq<Seq<char>>) -> Option<Seq<Seq<char>>>
    decreases t, 1int,
{
    let here = path.push(t.name@);
    if declares_here(t, flag) {
        Some(here)
    } else {
        first_declaring(t.subs@, flag, here)
    }
}

/// The first path, over the trees in order, of a command declaring `--flag`.
pub open spec fn first_declaring(subs: Seq<FlagTree>, flag: Seq<char>, path: Seq<Seq<char>>) -> Option<Seq<Seq<char>>>
    decreases subs, 0int,
{
    if subs.len() == 0 {
        None
    } else {
        match declaring_path(subs[0], flag, path) {
            Some(p) => Some(p),
            None => first_declaring(subs.drop_first(), flag, path),
        }
    }
}

/// The tree takes `--flag` the way the override flag would collide: an
/// argument of the command with the override's id or answering to the flag,
/// or a subcommand invoked by it or taking it.
pub open spec fn takes_flag(t: FlagTree, flag: Seq<char>) -> bool
    decreases t, 1int,
{
    (exists|i: int| #![trigger t.args@[i]] 0 <= i < t.args@.len() && (t.args@[i].id@ == CONFIG_OVERRIDE_ARG@
        || arg_answers(t.args@[i], flag))) || any_sub_takes(t.subs@, flag)
}

/// Some subcommand is invoked by `--flag` or takes it.
pub open spec fn any_sub_takes(subs: Seq<FlagTree>, flag: Seq<char>) -> bool
    decreases subs, 0int,
{
    if subs.len() == 0 {
        false
    } else {
        invoked_by(subs[0], flag) || takes_flag(subs[0], flag) || any_sub_takes(subs.drop_first(), flag)
    }
}

/// Strings as their texts.
pub open spec fn texts(v: Seq<String>) -> Seq<Seq<char>> {
    v.map_values(|s: String| s@)
}

/// Whether `names` holds `flag`.
fn holds_text(names: &Vec<String>, flag: &String) -> (b: bool)
    ensures
        b == holds(names@, flag@),
{
    let mut j: usize = 0;
    while j < names.len()
        invariant
            j <= names@.len(),
            forall|k: int| 0 <= k < j ==> names@[k]@ != flag@,
        decreases names@.len() - j,
    {
        if names[j] == *flag {
            return true;
        }
        j = j + 1;
    }
    false
}

/// Whether the optional long name is `flag`.
fn long_is(long: &Option<String>, flag: &String) -> (b: bool)
    ensures
        b == (long matches Some(l) && l@ == flag@),
{
    match long {
        Some(l) => *l == *flag,
        None => false,
    }
}

/// Whether the text is `word`.
fn text_is(s: &String, word: &str) -> (b: bool)
    ensures
        b == (s@ == word@),
{
    crate::text::chars_equal(&chars_of(s.as_str()), &chars_of(word))
}

/// Whether the argument is one the framework installs.
fn framework_arg(id: &String) -> (b: bool)
    ensures
        b == is_framework_arg(id@),
{
    text_is(id, OUTPUT_MODE_ARG) || text_is(id, OUTPUT_FILE_ARG) || text_is(id, COLOR_ARG) || text_is(
        id,
        NO_PAGER_ARG,
    ) || text_is(id, CONFIG_OVERRIDE_ARG)
}

/// Whether the command itself declares `--flag`.
fn declares_flag_here(t: &FlagTree, flag: &String) -> (b: bool)
    ensures
        b == declares_here(*t, flag@),
{
    if long_is(&t.long_flag, flag) || holds_text(&t.long_flag_aliases, flag) {
        return true;
    }
    let mut i: usize = 0;
    while i < t.args.len()
        invariant
            i <= t.args@.len(),
            forall|k: int| 0 <= k < i ==> !(!is_framework_arg(#[trigger] t.args@[k].id@) && arg_answers(t.args@[k], flag@)),
        decreases t.args@.len() - i,
    {
        let a = &t.args[i];
        if !framework_arg(&a.id) && (long_is(&a.long, flag) || holds_text(&a.aliases, flag)) {
            return true;
        }
        i = i + 1;
    }
    false
}

/// A copy of the strings.
fn copy_strings(v: &Vec<String>) -> (c: Vec<String>)
    ensures
        texts(c@) == texts(v@),
{
    let mut c: Vec<String> = Vec::new();
    let mut i: usize = 0;
    while i < v.len()
        invariant
            i <= v@.len(),
            texts(c@) == texts(v@.take(i as int)),
        decreases v@.len() - i,
    {
        let ghost before = c@;
        let copy = v[i].clone();
        c.push(copy);
        proof {
            assert(texts(c@) =~= texts(before).push(v@[i as int]@));
            assert(texts(v@.take(i + 1)) =~= texts(v@.take(i as int)).push(v@[i as int]@));
        }
        i = i + 1;
    }
    proof {
        assert(v@.take(v@.len() as int) =~= v@);
    }
    c
}

/// The path of the first command, depth first, that declares `--flag`;
/// `path` names the commands above `t`.
fn command_declaring_long(t: &FlagTree, flag: &String, path: &Vec<String>) -> (found: Option<Vec<String>>)
    ensures
        match found {
            Some(p) => declaring_path(*t, flag@, texts(path@)) == Some(texts(p@)),
            None => declaring_path(*t, flag@, texts(path@)) is None,
        },
    decreases *t,
{
    let mut here = copy_strings(path);
    let ghost before = here@;
    here.push(t.name.clone());
    proof {
        assert(texts(here@) =~= texts(path@).push(t.name@));
    }
    if declares_flag_here(t, flag) {
        return Some(here);
    }
    proof {
        assert(t.subs@.skip(0) =~= t.subs@);
    }
    let mut i: usize = 0;
    while i < t.subs.len()
        invariant
            i <= t.subs@.len(),
            !declares_here(*t, flag@),
            texts(here@) == texts(path@).push(t.name@),
            first_declaring(t.subs@, flag@, texts(here@)) == first_declaring(t.subs@.skip(i as int), flag@, texts(here@)),
        decreases t.subs@.len() - i,
    {
        proof {
            assert(t.subs@.skip(i as int)[0] == t.subs@[i as int]);
            assert(t.subs@.skip(i as int).drop_first() =~= t.subs@.skip(i + 1));
            assert(decreases_to!(*t => t.subs@[i as int]));
        }
        match command_declaring_long(&t.subs[i], flag, &here) {
            Some(p) => {
                proof {
                    let rest = t.subs@.skip(i as int);
                    assert(declaring_path(rest[0], flag@, texts(here@)) == Some(texts(p@)));
                    assert(first_declaring(rest, flag@, texts(here@)) == Some(texts(p@)));
                    assert(!declares_here(*t, flag@));
                    assert(declaring_path(*t, flag@, texts(path@)) == first_declaring(t.subs@, flag@, texts(path@).push(t.name@)));
                }
                return Some(p);
            },
            None => {},
        }
        i = i + 1;
    }
    proof {
        assert(t.subs@.skip(t.subs@.len() as int) =~= Seq::<FlagTree>::empty());
        assert(t.subs@.skip(0) =~= t.subs@);
    }
    None
}

/// Whether the tree takes `--flag` the way the override flag would collide.
fn command_takes_flag(t: &FlagTree, flag: &String) -> (b: bool)
    ensures
        b == takes_flag(*t, flag@),
    decreases *t,
{
    let mut i: usize = 0;
    while i < t.args.len()
        invariant
            i <= t.args@.len(),
            forall|k: int| #![trigger t.args@[k]] 0 <= k < i ==> !(t.args@[k].id@ == CONFIG_OVERRIDE_ARG@ || arg_answers(
                t.args@[k],
                flag@,
            )),
        decreases t.args@.len() - i,
    {
        let a = &t.args[i];
        if text_is(&a.id, CONFIG_OVERRIDE_ARG) || long_is(&a.long, flag) || holds_text(&a.aliases, flag) {
            return true;
        }
        i = i + 1;
    }
    proof {
        assert(t.subs@.skip(0) =~= t.subs@);
    }
    let mut j: usize = 0;
    while j < t.subs.len()
        invariant
            j <= t.subs@.len(),
            forall|k: int| #![trigger t.args@[k]] 0 <= k < t.args@.len() ==> !(t.args@[k].id@ == CONFIG_OVERRIDE_ARG@
                || arg_answers(t.args@[k], flag@)),
            any_sub_takes(t.subs@, flag@) == any_sub_takes(t.subs@.skip(j as int), flag@),
        decreases t.subs@.len() - j,
    {
        proof {
            assert(t.subs@.skip(j as int)[0] == t.subs@[j as int]);
            assert(t.subs@.skip(j as int).drop_first() =~= t.subs@.skip(j + 1));
            assert(decreases_to!(*t => t.subs@[j as int]));
        }
        let sub = &t.subs[j];
        if long_is(&sub.long_flag, flag) || holds_text(&sub.long_flag_aliases, flag) || command_takes_flag(sub, flag) {
            return true;
        }
        j = j + 1;
    }
    proof {
        assert(t.subs@.skip(t.subs@.len() as int) =~= Seq::<FlagTree>::empty());
    }
    false
}

/// The framework's flags as installed: each one's long name, when it is.
#[derive(Debug, Clone)]
pub struct InstalledFlags {
    /// The `--output` flag (set by `output_flag`, dropped by `no_output_flag()`).
    pub output_flag: Option<String>,
    /// The `--output-file` flag (set by `output_file_flag`, dropped by
    /// `no_output_file_flag()`).
    pub output_file_flag: Option<String>,
    /// The `--color` flag (set by `color_flag`, dropped by `no_color_flag()`).
    pub color_flag: Option<String>,
    /// The `--no-pager` flag (set by `pager_flag`, dropped by `no_pager_flag()`).
    pub pager_flag: Option<String>,
}

/// Flags clap generates for each command only when it builds the tree.
pub open spec fn is_generated_flag(flag: Seq<char>) -> bool {
    flag == "help"@ || flag == "version"@
}

/// The text for a framework flag that a command of the application
/// already declares.
pub open spec fn declared_flag_text(seam: Seq<char>, flag: Seq<char>, owner: Seq<char>, removal: Seq<char>) -> Seq<char> {
    seam + " installs `--"@ + flag + "`, which this application already declares on `"@ + owner
        + "`. Rename standout's with "@ + seam + "(Some(\"...\")), drop it with "@ + removal
        + ", or rename the application's own flag"@
}

/// The collision of one installed flag: the error text when a command
/// declares it (searched in the built tree for the generated `help` and
/// `version`, in the tree as defined otherwise).
pub open spec fn flag_collision(seam: Seq<char>, removal: Seq<char>, flag: Option<String>, tree: FlagTree, built: FlagTree)
    -> Option<Seq<char>> {
    match flag {
        None => None,
        Some(f) => {
            let searched = if is_generated_flag(f@) {
                built
            } else {
                tree
            };
            match declaring_path(searched, f@, seq![]) {
                Some(p) => Some(declared_flag_text(seam, f@, join_seq(p, " "@), removal)),
                None => None,
            }
        },
    }
}

/// The first collision among the installed flags, in the order `--output`,
/// `--output-file`, `--color`, `--no-pager`.
pub open spec fn first_flag_collision(installed: InstalledFlags, tree: FlagTree, built: FlagTree) -> Option<Seq<char>> {
    let o = flag_collision("output_flag"@, "no_output_flag()"@, installed.output_flag, tree, built);
    let f = flag_collision("output_file_flag"@, "no_output_file_flag()"@, installed.output_file_flag, tree, built);
    let c = flag_collision("color_flag"@, "no_color_flag()"@, installed.color_flag, tree, built);
    let p = flag_collision("pager_flag"@, "no_pager_flag()"@, installed.pager_flag, tree, built);
    if o is Some {
        o
    } else if f is Some {
        f
    } else if c is Some {
        c
    } else {
        p
    }
}

/// Whether the flag is one clap generates.
fn generated_flag(flag: &String) -> (b: bool)
    ensures
        b == is_generated_flag(flag@),
{
    text_is(flag, "help") || text_is(flag, "version")
}

/// The collision of one installed flag.
fn check_flag(seam: &str, removal: &str, flag: &Option<String>, tree: &FlagTree, built: &FlagTree) -> (r: Option<String>)
    ensures
        match r {
            Some(t) => flag_collision(seam@, removal@, *flag, *tree, *built) == Some(t@),
            None => flag_collision(seam@, removal@, *flag, *tree, *built) is None,
        },
{
    match flag {
        None => None,
        Some(f) => {
            let searched = if generated_flag(f) {
                built
            } else {
                tree
            };
            match command_declaring_long(searched, f, &Vec::new()) {
                None => {
                    proof {
                        assert(texts(Seq::<String>::empty()) =~= Seq::<Seq<char>>::empty());
                    }
                    None
                },
                Some(path) => {
                    proof {
                        assert(texts(Seq::<String>::empty()) =~= Seq::<Seq<char>>::empty());
                    }
                    let owner = joined_path(&path);
                    let a = concat(seam, " installs `--");
                    let b = concat(a.as_str(), f.as_str());
                    let c = concat(b.as_str(), "`, which this application already declares on `");
                    let d = concat(c.as_str(), owner.as_str());
                    let e = concat(d.as_str(), "`. Rename standout's with ");
                    let g = concat(e.as_str(), seam);
                    let h = concat(g.as_str(), "(Some(\"...\")), drop it with ");
                    let k = concat(h.as_str(), removal);
                    Some(concat(k.as_str(), ", or rename the application's own flag"))
                },
            }
        },
    }
}

/// The names joined with spaces.
fn joined_path(path: &Vec<String>) -> (s: String)
    ensures
        s@ == join_seq(texts(path@), " "@),
{
    let mut parts: Vec<Vec<char>> = Vec::new();
    let mut i: usize = 0;
    while i < path.len()
        invariant
            i <= path@.len(),
            parts@.map_values(|p: Vec<char>| p@) == texts(path@).take(i as int),
        decreases path@.len() - i,
    {
        let ghost before = parts@;
        parts.push(chars_of(path[i].as_str()));
        proof {
            assert(parts@.map_values(|p: Vec<char>| p@) =~= before.map_values(|p: Vec<char>| p@).push(path@[i as int]@));
            assert(texts(path@).take(i + 1) =~= texts(path@).take(i as int).push(path@[i as int]@));
        }
        i = i + 1;
    }
    proof {
        assert(texts(path@).take(path@.len() as int) =~= texts(path@));
    }
    string_of(&join(&parts, &chars_of(" ")))
}

/// Check the framework's installed flags against the application's command
/// tree (`built` is the tree as clap builds it, with its generated `--help`
/// and `--version`): the first installed flag, in the order `--output`,
/// `--output-file`, `--color`, `--no-pager`, that a command already declares
/// is a configuration error naming the flag's setter, the first declaring
/// command's path, and the call that drops the flag.
pub fn framework_flag_collision(installed: &InstalledFlags, tree: &FlagTree, built: &FlagTree) -> (r: Result<(), SetupError>)
    ensures
        match first_flag_collision(*installed, *tree, *built) {
            Some(t) => r matches Err(SetupError::Config(m)) && m@ == t,
            None => r is Ok,
        },
{
    if let Some(t) = check_flag("output_flag", "no_output_flag()", &installed.output_flag, tree, built) {
        return Err(SetupError::Config(t));
    }
    if let Some(t) = check_flag("output_file_flag", "no_output_file_flag()", &installed.output_file_flag, tree, built) {
        return Err(SetupError::Config(t));
    }
    if let Some(t) = check_flag("color_flag", "no_color_flag()", &installed.color_flag, tree, built) {
        return Err(SetupError::Config(t));
    }
    if let Some(t) = check_flag("pager_flag", "no_pager_flag()", &installed.pager_flag, tree, built) {
        return Err(SetupError::Config(t));
    }
    Ok(())
}

/// The text for an override flag the application's command tree takes.
pub open spec fn override_taken_by_app_text(flag: Seq<char>) -> Seq<char> {
    "config_override_flag(\""@ + flag + "\") is already taken by this application's clap Command"@
}

/// Check the configuration override flag against the application's command
/// tree (`built` as clap builds it): an override flag that an argument of
/// some command takes (or the override's own argument already stands in
/// the tree), or that a subcommand is invoked by, is a configuration error.
pub fn config_override_flag_collision(flag: &Option<String>, tree: &FlagTree, built: &FlagTree) -> (r: Result<(), SetupError>)
    ensures
        match flag {
            None => r is Ok,
            Some(f) => {
                let searched = if is_generated_flag(f@) {
                    *built
                } else {
                    *tree
                };
                if takes_flag(searched, f@) {
                    r matches Err(SetupError::Config(m)) && m@ == override_taken_by_app_text(f@)
                } else {
                    r is Ok
                }
            },
        },
{
    match flag {
        None => Ok(()),
        Some(f) => {
            let searched = if generated_flag(f) {
                built
            } else {
                tree
            };
            if command_takes_flag(searched, f) {
                let a = concat("config_override_flag(\"", f.as_str());
                Err(SetupError::Config(concat(a.as_str(), "\") is already taken by this application's clap Command")))
            } else {
                Ok(())
            }
        },
    }
}

} // verus!
