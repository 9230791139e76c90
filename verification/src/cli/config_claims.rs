//! What of the application's command definition the installed `config`
//! command would collide with: a subcommand answering to `config`, or a
//! root-global argument that the `config` tree takes too (clap would
//! propagate the global onto that tree).

use vstd::prelude::*;

use crate::cli::default_command::{answers, is_command, CommandNames};
use crate::cli::setup_checks::{config_command_text, config_option_text};
use crate::setup::SetupError;
use crate::text::{concat, string_of};

verus! {

broadcast use vstd::string::group_string_axioms;

/// The spellings an argument answers to.
#[derive(Debug, Clone)]
pub struct ArgSpellings {
    /// Its id.
    pub id: String,
    /// Its long flag, then its long aliases.
    pub longs: Vec<String>,
    /// Its short flag, then its short aliases.
    pub shorts: Vec<char>,
    /// Whether it is global (propagated to every subcommand).
    pub global: bool,
}

/// The first of `mine` that `theirs` holds too.
pub open spec fn first_shared_long(mine: Seq<String>, theirs: Seq<String>) -> Option<Seq<char>>
    decreases mine.len(),
{
    if mine.len() == 0 {
        None
    } else if exists|j: int| 0 <= j < theirs.len() && theirs[j]@ == mine[0]@ {
        Some(mine[0]@)
    } else {
        first_shared_long(mine.drop_first(), theirs)
    }
}

/// The first of `mine` that `theirs` holds too.
pub open spec fn first_shared_short(mine: Seq<char>, theirs: Seq<char>) -> Option<char>
    decreases mine.len(),
{
    if mine.len() == 0 {
        None
    } else if theirs.contains(mine[0]) {
        Some(mine[0])
    } else {
        first_shared_short(mine.drop_first(), theirs)
    }
}

/// How the argument `global` claims what the `config` tree's argument
/// `taken` answers to: by a shared long name (the first of `global`'s), else
/// a shared short name, else the same id.
pub open spec fn claim_against(global: ArgSpellings, taken: ArgSpellings) -> Option<Seq<char>> {
    match first_shared_long(global.longs@, taken.longs@) {
        Some(l) => Some("`--"@ + l + "`"@),
        None => match first_shared_short(global.shorts@, taken.shorts@) {
            Some(c) => Some("`-"@ + seq![c] + "`"@),
            None => if global.id@ == taken.id@ {
                Some("the id `"@ + global.id@ + "`"@)
            } else {
                None
            },
        },
    }
}

/// The claim `global` makes on the first of the `config` tree's arguments
/// it claims anything of.
pub open spec fn tree_claim(global: ArgSpellings, tree: Seq<ArgSpellings>) -> Option<Seq<char>>
    decreases tree.len(),
{
    if tree.len() == 0 {
        None
    } else {
        match claim_against(global, tree[0]) {
            Some(c) => Some(c),
            None => tree_claim(global, tree.drop_first()),
        }
    }
}

/// The claim of the first global argument that claims anything of the
/// `config` tree.
pub open spec fn first_global_claim(args: Seq<ArgSpellings>, tree: Seq<ArgSpellings>) -> Option<Seq<char>>
    decreases args.len(),
{
    if args.len() == 0 {
        None
    } else if args[0].global && tree_claim(args[0], tree) is Some {
        tree_claim(args[0], tree)
    } else {
        first_global_claim(args.drop_first(), tree)
    }
}

/// The first long name of `mine` that `theirs` holds too.
fn shared_long(mine: &Vec<String>, theirs: &Vec<String>) -> (found: Option<String>)
    ensures
        match found {
            Some(l) => first_shared_long(mine@, theirs@) == Some(l@),
            None => first_shared_long(mine@, theirs@) is None,
        },
{
    let mut i: usize = 0;
    proof {
        assert(mine@.skip(0) =~= mine@);
    }
    while i < mine.len()
        invariant
            i <= mine@.len(),
            first_shared_long(mine@, theirs@) == first_shared_long(mine@.skip(i as int), theirs@),
        decreases mine@.len() - i,
    {
        proof {
            assert(mine@.skip(i as int)[0] == mine@[i as int]);
            assert(mine@.skip(i as int).drop_first() =~= mine@.skip(i + 1));
        }
        let mut j: usize = 0;
        while j < theirs.len()
            invariant
                i < mine@.len(),
                j <= theirs@.len(),
                first_shared_long(mine@, theirs@) == first_shared_long(mine@.skip(i as int), theirs@),
                mine@.skip(i as int)[0] == mine@[i as int],
                mine@.skip(i as int).drop_first() == mine@.skip(i + 1),
                forall|k: int| 0 <= k < j ==> theirs@[k]@ != mine@[i as int]@,
            decreases theirs@.len() - j,
        {
            if theirs[j] == mine[i] {
                return Some(mine[i].clone());
            }
            j = j + 1;
        }
        i = i + 1;
    }
    proof {
        assert(mine@.skip(mine@.len() as int) =~= Seq::<String>::empty());
    }
    None
}

/// The first short name of `mine` that `theirs` holds too.
fn shared_short(mine: &Vec<char>, theirs: &Vec<char>) -> (found: Option<char>)
    ensures
        found == first_shared_short(mine@, theirs@),
{
    let mut i: usize = 0;
    proof {
        assert(mine@.skip(0) =~= mine@);
    }
    while i < mine.len()
        invariant
            i <= mine@.len(),
            first_shared_short(mine@, theirs@) == first_shared_short(mine@.skip(i as int), theirs@),
        decreases mine@.len() - i,
    {
        proof {
            assert(mine@.skip(i as int)[0] == mine@[i as int]);
            assert(mine@.skip(i as int).drop_first() =~= mine@.skip(i + 1));
        }
        let mut j: usize = 0;
        while j < theirs.len()
            invariant
                i < mine@.len(),
                j <= theirs@.len(),
                first_shared_short(mine@, theirs@) == first_shared_short(mine@.skip(i as int), theirs@),
                mine@.skip(i as int)[0] == mine@[i as int],
                mine@.skip(i as int).drop_first() == mine@.skip(i + 1),
                forall|k: int| 0 <= k < j ==> theirs@[k] != mine@[i as int],
            decreases theirs@.len() - j,
        {
            if theirs[j] == mine[i] {
                return Some(mine[i]);
            }
            j = j + 1;
        }
        i = i + 1;
    }
    proof {
        assert(mine@.skip(mine@.len() as int) =~= Seq::<char>::empty());
    }
    None
}

/// How `global` claims what `taken` answers to.
fn claim_of(global: &ArgSpellings, taken: &ArgSpellings) -> (claim: Option<String>)
    ensures
        match claim {
            Some(c) => claim_against(*global, *taken) == Some(c@),
            None => claim_against(*global, *taken) is None,
        },
{
    match shared_long(&global.longs, &taken.longs) {
        Some(l) => {
            let a = concat("`--", l.as_str());
            return Some(concat(a.as_str(), "`"));
        },
        None => {},
    }
    match shared_short(&global.shorts, &taken.shorts) {
        Some(c) => {
            let mut v: Vec<char> = Vec::new();
            v.push('`');
            v.push('-');
            v.push(c);
            v.push('`');
            proof {
                reveal_strlit("`-");
                reveal_strlit("`");
                assert(v@ =~= "`-"@ + seq![c] + "`"@);
            }
            return Some(string_of(&v));
        },
        None => {},
    }
    if global.id == taken.id {
        let a = concat("the id `", global.id.as_str());
        Some(concat(a.as_str(), "`"))
    } else {
        None
    }
}

/// The claim `global` makes on the `config` tree.
fn config_tree_claim(global: &ArgSpellings, tree: &Vec<ArgSpellings>) -> (claim: Option<String>)
    ensures
        match claim {
            Some(c) => tree_claim(*global, tree@) == Some(c@),
            None => tree_claim(*global, tree@) is None,
        },
{
    let mut i: usize = 0;
    proof {
        assert(tree@.skip(0) =~= tree@);
    }
    while i < tree.len()
        invariant
            i <= tree@.len(),
            tree_claim(*global, tree@) == tree_claim(*global, tree@.skip(i as int)),
        decreases tree@.len() - i,
    {
        proof {
            assert(tree@.skip(i as int)[0] == tree@[i as int]);
            assert(tree@.skip(i as int).drop_first() =~= tree@.skip(i + 1));
        }
        match claim_of(global, &tree[i]) {
            Some(c) => {
                return Some(c);
            },
            None => {},
        }
        i = i + 1;
    }
    proof {
        assert(tree@.skip(tree@.len() as int) =~= Seq::<ArgSpellings>::empty());
    }
    None
}

/// The text of a subcommand answering to `config`.
pub open spec fn config_subcommand_claim() -> Seq<char> {
    "this application's clap `Command` declares `config` (as a subcommand name or alias)"@
}

/// The text of a root-global argument the `config` tree takes too.
pub open spec fn global_argument_claim(claim: Seq<char>) -> Seq<char> {
    "this application's clap `Command` declares a root-global argument with "@ + claim
}

/// Check the application's root command against the `config` command the
/// framework installs (when it installs one): a subcommand answering to
/// `config` by name or alias is refused; else the first global argument of
/// the root that claims a long name, short name or id of the `config`
/// tree's arguments is refused, naming the claim.
pub fn config_command_collision(
    installs_config_command: bool,
    subs: &Vec<CommandNames>,
    args: &Vec<ArgSpellings>,
    tree: &Vec<ArgSpellings>,
) -> (r: Result<(), SetupError>)
    ensures
        !installs_config_command ==> r is Ok,
        installs_config_command && is_command(subs@, "config"@) ==> (r matches Err(SetupError::Config(m)) && m@
            == config_command_text(config_subcommand_claim())),
        installs_config_command && !is_command(subs@, "config"@) ==> match first_global_claim(args@, tree@) {
            Some(c) => r matches Err(SetupError::Config(m)) && m@ == config_option_text(global_argument_claim(c)),
            None => r is Ok,
        },
{
    if !installs_config_command {
        return Ok(());
    }
    let word = "config".to_owned();
    proof {
        reveal_strlit("config");
    }
    let mut k: usize = 0;
    while k < subs.len()
        invariant
            installs_config_command,
            k <= subs@.len(),
            word@ == "config"@,
            forall|m: int| 0 <= m < k ==> !crate::cli::default_command::answers_to(#[trigger] subs@[m], "config"@),
        decreases subs@.len() - k,
    {
        if answers(&subs[k], &word) {
            let a = concat("config — ", "this application's clap `Command` declares `config` (as a subcommand name or alias)");
            return Err(SetupError::Config(concat(a.as_str(), ", and standout installs a `config` command of its own for the configuration given to .config(...). Rename the application's command, or call .no_config_command() to keep the name")));
        }
        k = k + 1;
    }
    let mut i: usize = 0;
    proof {
        assert(args@.skip(0) =~= args@);
    }
    while i < args.len()
        invariant
            installs_config_command,
            !is_command(subs@, "config"@),
            i <= args@.len(),
            first_global_claim(args@, tree@) == first_global_claim(args@.skip(i as int), tree@),
        decreases args@.len() - i,
    {
        proof {
            assert(args@.skip(i as int)[0] == args@[i as int]);
            assert(args@.skip(i as int).drop_first() =~= args@.skip(i + 1));
        }
        if args[i].global {
            match config_tree_claim(&args[i], tree) {
                Some(c) => {
                    let a = concat("this application's clap `Command` declares a root-global argument with ", c.as_str());
                    let b = concat("config — ", a.as_str());
                    return Err(SetupError::Config(concat(b.as_str(), ", and the `config` command standout installs for the configuration given to .config(...) takes it on its own tree, where clap would propagate the global. Rename the flag, or call .no_config_command() to keep it")));
                },
                None => {},
            }
        }
        i = i + 1;
    }
    proof {
        assert(args@.skip(args@.len() as int) =~= Seq::<ArgSpellings>::empty());
    }
    Ok(())
}

} // verus!
