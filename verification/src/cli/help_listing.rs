//! What a help page lists of a command: which of its subcommands, and its
//! arguments split into the positional arguments and the options, each
//! kind grouped under its headings, all in display order.

use vstd::prelude::*;

use crate::cli::display_order::{keyed_sort, lemma_keyed_sort, sort_by_key};
use crate::cli::help::{
    by_display_order, copy_summary, group_by_heading, grouped_by_heading, keyed_by_order, opt_text, CommandSummary,
    Group, OptionData,
};
use crate::cli::help_args::{
    flag_name, flag_name_text, flag_value_name, flag_value_text, is_option_row, option_row, positional_name,
    positional_name_text, ArgFacts,
};
use crate::text::{chars_equal, chars_of};

verus! {

broadcast use vstd::string::group_string_axioms;

/// A subcommand as the help page finds it.
#[derive(Debug)]
pub struct SubcommandFacts {
    /// Its name, description and display order.
    pub summary: CommandSummary,
    /// Whether it is hidden from help.
    pub hidden: bool,
}

/// The subcommands a help page may list, in their given order: those not
/// hidden, leaving out the `help` subcommand that the parser adds unless
/// the parent turned that subcommand off.
pub open spec fn listable(c: Seq<SubcommandFacts>, help_subcommand_disabled: bool) -> Seq<CommandSummary>
    decreases c.len(),
{
    if c.len() == 0 {
        seq![]
    } else {
        let rest = listable(c.drop_last(), help_subcommand_disabled);
        let last = c.last();
        if last.hidden || (last.summary.name@ == "help"@ && !help_subcommand_disabled) {
            rest
        } else {
            rest.push(last.summary)
        }
    }
}

/// The subcommands a help page lists: the listable ones in display order;
/// none when the only one is `help` and there are no topics to list.
pub open spec fn listed(c: Seq<SubcommandFacts>, help_subcommand_disabled: bool, has_topics: bool) -> Seq<
    CommandSummary,
> {
    let s = by_display_order(listable(c, help_subcommand_disabled));
    if s.len() == 1 && s[0].name@ == "help"@ && !has_topics {
        seq![]
    } else {
        s
    }
}

/// Whether the text is the word `help`.
fn is_help_word(name: &String) -> (b: bool)
    ensures
        b == (name@ == "help"@),
{
    proof {
        reveal_strlit("help");
    }
    chars_equal(&chars_of(name.as_str()), &chars_of("help"))
}

/// The subcommands a help page lists, in display order (equal orders kept
/// as given): not hidden, without the parser's own `help` subcommand unless
/// it was turned off, and none at all when only `help` is left and there
/// are no topics.
pub fn listed_subcommands(candidates: &Vec<SubcommandFacts>, help_subcommand_disabled: bool, has_topics: bool)
    -> (subs: Vec<CommandSummary>)
    ensures
        subs@ == listed(candidates@, help_subcommand_disabled, has_topics),
{
    let mut keyed: Vec<(usize, CommandSummary)> = Vec::new();
    let mut i: usize = 0;
    while i < candidates.len()
        invariant
            i <= candidates@.len(),
            keyed@ == keyed_by_order(listable(candidates@.take(i as int), help_subcommand_disabled)),
        decreases candidates@.len() - i,
    {
        proof {
            assert(candidates@.take(i + 1).drop_last() =~= candidates@.take(i as int));
        }
        let c = &candidates[i];
        let parser_help = is_help_word(&c.summary.name) && !help_subcommand_disabled;
        if !c.hidden && !parser_help {
            let copy = copy_summary(&c.summary);
            keyed.push((c.summary.display_order, copy));
            proof {
                assert(keyed@ =~= keyed_by_order(listable(candidates@.take(i + 1), help_subcommand_disabled)));
            }
        }
        i = i + 1;
    }
    proof {
        assert(candidates@.take(candidates@.len() as int) =~= candidates@);
        lemma_keyed_sort(keyed@);
    }
    let sorted = sort_by_key(keyed);
    let mut subs: Vec<CommandSummary> = Vec::new();
    let mut k: usize = 0;
    while k < sorted.len()
        invariant
            k <= sorted@.len(),
            subs@ == sorted@.take(k as int).map_values(|p: (usize, CommandSummary)| p.1),
        decreases sorted@.len() - k,
    {
        let copy = copy_summary(&sorted[k].1);
        subs.push(copy);
        proof {
            assert(subs@ =~= sorted@.take(k + 1).map_values(|p: (usize, CommandSummary)| p.1));
        }
        k = k + 1;
    }
    proof {
        assert(sorted@.take(sorted@.len() as int) =~= sorted@);
    }
    if !has_topics && subs.len() == 1 && is_help_word(&subs[0].name) {
        subs.clear();
        proof {
            assert(subs@ =~= Seq::<CommandSummary>::empty());
        }
    }
    subs
}

/// The help page lists subcommands in display order, and lists the
/// listable subcommands, each as often as it is listable: unless only
/// `help` is left and there are no topics, the listed subcommands are the
/// listable ones, reordered.
pub proof fn law_subcommands_listed_in_display_order(c: Seq<SubcommandFacts>, help_subcommand_disabled: bool, has_topics: bool)
    ensures
        forall|a: int, b: int|
            0 <= a < b < listed(c, help_subcommand_disabled, has_topics).len() ==> (#[trigger] listed(
                c,
                help_subcommand_disabled,
                has_topics,
            )[a]).display_order <= (#[trigger] listed(c, help_subcommand_disabled, has_topics)[b]).display_order,
        listed(c, help_subcommand_disabled, has_topics).len() > 0 ==> {
            &&& listed(c, help_subcommand_disabled, has_topics).len() == listable(c, help_subcommand_disabled).len()
            &&& forall|i: int| 0 <= i < listable(c, help_subcommand_disabled).len()
                ==> listed(c, help_subcommand_disabled, has_topics).contains(
                #[trigger] listable(c, help_subcommand_disabled)[i],
            )
            &&& forall|i: int| 0 <= i < listed(c, help_subcommand_disabled, has_topics).len()
                ==> listable(c, help_subcommand_disabled).contains(
                #[trigger] listed(c, help_subcommand_disabled, has_topics)[i],
            )
        },
{
    broadcast use vstd::seq_lib::group_to_multiset_ensures;

    let l = listable(c, help_subcommand_disabled);
    let k = keyed_by_order(l);
    let s = keyed_sort(k);
    lemma_keyed_sort(k);
    let out = by_display_order(l);
    assert forall|i: int| 0 <= i < s.len() implies #[trigger] s[i].0 == s[i].1.display_order && l.contains(s[i].1) by {
        assert(s.to_multiset().count(s[i]) > 0);
        assert(k.contains(s[i]));
        let j = choose|j: int| 0 <= j < k.len() && k[j] == s[i];
        assert(k[j] == (l[j].display_order, l[j]));
    }
    assert forall|a: int, b: int| 0 <= a < b < out.len() implies (#[trigger] out[a]).display_order
        <= (#[trigger] out[b]).display_order by {
        assert(out[a] == s[a].1 && out[b] == s[b].1);
        assert(s[a].0 <= s[b].0);
    }
    assert forall|j: int| 0 <= j < l.len() implies out.contains(#[trigger] l[j]) by {
        assert(k[j] == (l[j].display_order, l[j]));
        assert(k.to_multiset().count(k[j]) > 0);
        assert(s.contains(k[j]));
        let i = choose|i: int| 0 <= i < s.len() && s[i] == k[j];
        assert(out[i] == s[i].1);
    }
    assert forall|i: int| 0 <= i < out.len() implies l.contains(#[trigger] out[i]) by {
        assert(out[i] == s[i].1);
        assert(s[i].0 == s[i].1.display_order && l.contains(s[i].1));
    }
}

/// An argument as the help page finds it.
#[derive(Debug)]
pub struct HelpArgument {
    /// What the rows show of it.
    pub arg: ArgFacts,
    /// Whether it is hidden from help.
    pub hidden: bool,
    /// Whether it is positional (else it is an option).
    pub positional: bool,
    /// Its display order; lower comes first.
    pub display_order: usize,
    /// The heading it is listed under, if any.
    pub heading: Option<String>,
}

/// The arguments that are not hidden, keyed by display order, in their
/// given order.
pub open spec fn visible_args(a: Seq<HelpArgument>) -> Seq<(usize, HelpArgument)>
    decreases a.len(),
{
    if a.len() == 0 {
        seq![]
    } else if a.last().hidden {
        visible_args(a.drop_last())
    } else {
        visible_args(a.drop_last()).push((a.last().display_order, a.last()))
    }
}

/// The arguments the help page lists, in display order (equal orders kept
/// as given).
pub open spec fn ordered_args(a: Seq<HelpArgument>) -> Seq<HelpArgument> {
    keyed_sort(visible_args(a)).map_values(|p: (usize, HelpArgument)| p.1)
}

/// The positional arguments (or the options) among `a`, in order.
pub open spec fn of_kind(a: Seq<HelpArgument>, positional: bool) -> Seq<HelpArgument>
    decreases a.len(),
{
    if a.len() == 0 {
        seq![]
    } else if a.last().positional == positional {
        of_kind(a.drop_last(), positional).push(a.last())
    } else {
        of_kind(a.drop_last(), positional)
    }
}

/// The rows stand for the arguments one for one: each under its argument's
/// heading, named by its positional name (positional arguments, with no
/// value placeholder) or its flags and value placeholder (options).
pub open spec fn rows_for(rows: Seq<(Option<String>, OptionData)>, args: Seq<HelpArgument>, positional: bool) -> bool {
    &&& rows.len() == args.len()
    &&& forall|i: int| #![trigger rows[i]] 0 <= i < rows.len() ==> {
        &&& opt_text(rows[i].0) == opt_text(args[i].heading)
        &&& if positional {
            is_option_row(rows[i].1, positional_name_text(args[i].arg), None, args[i].arg)
        } else {
            is_option_row(rows[i].1, flag_name_text(args[i].arg), flag_value_text(args[i].arg), args[i].arg)
        }
    }
}

/// The sections of one kind of argument: the rows of the listed arguments
/// of that kind, grouped by heading.
pub open spec fn argument_sections_of(args: Seq<HelpArgument>, positional: bool, out: Seq<Group<OptionData>>) -> bool {
    exists|rows: Seq<(Option<String>, OptionData)>|
        rows_for(rows, of_kind(ordered_args(args), positional), positional) && grouped_by_heading(rows, out)
}

/// The arguments not hidden, in display order (equal orders kept as given).
pub fn ordered_arguments(args: Vec<HelpArgument>) -> (ordered: Vec<HelpArgument>)
    ensures
        ordered@ == ordered_args(args@),
{
    let ghost all = args@;
    let mut rest = args;
    let mut keyed: Vec<(usize, HelpArgument)> = Vec::new();
    proof {
        assert(all.skip(0) =~= all);
    }
    while rest.len() > 0
        invariant
            rest@.len() <= all.len(),
            rest@ == all.skip(all.len() - rest@.len()),
            keyed@ == visible_args(all.take(all.len() - rest@.len())),
        decreases rest@.len(),
    {
        let ghost done = (all.len() - rest@.len()) as int;
        let a = rest.remove(0);
        proof {
            assert(all[done] == a);
            assert(all.take(done + 1).drop_last() =~= all.take(done));
            assert(rest@ =~= all.skip(done + 1));
        }
        if !a.hidden {
            keyed.push((a.display_order, a));
        }
    }
    proof {
        assert(all.take(all.len() as int) =~= all);
    }
    let mut sorted = sort_by_key(keyed);
    let ghost target = sorted@.map_values(|p: (usize, HelpArgument)| p.1);
    let ghost total = sorted@.len();
    let mut ordered: Vec<HelpArgument> = Vec::new();
    while sorted.len() > 0
        invariant
            target.len() == total,
            sorted@.len() <= total,
            forall|j: int| 0 <= j < sorted@.len() ==> #[trigger] sorted@[j].1 == target[total - sorted@.len() + j],
            ordered@ == target.take(total - sorted@.len()),
        decreases sorted@.len(),
    {
        let ghost done = (total - sorted@.len()) as int;
        let ghost before = sorted@;
        let (_, a) = sorted.remove(0);
        proof {
            assert(before[0].1 == target[done]);
            assert forall|j: int| 0 <= j < sorted@.len() implies #[trigger] sorted@[j].1 == target[total
                - sorted@.len() + j] by {
                assert(sorted@[j] == before[j + 1]);
            }
        }
        ordered.push(a);
        proof {
            assert(ordered@ =~= target.take(done + 1));
        }
    }
    proof {
        assert(target.take(total as int) =~= target);
    }
    ordered
}

/// The positional arguments and the options among `args`, each in the
/// order given.
pub fn split_by_kind(args: Vec<HelpArgument>) -> (split: (Vec<HelpArgument>, Vec<HelpArgument>))
    ensures
        split.0@ == of_kind(args@, true),
        split.1@ == of_kind(args@, false),
{
    let ghost all = args@;
    let mut rest = args;
    let mut positional: Vec<HelpArgument> = Vec::new();
    let mut options: Vec<HelpArgument> = Vec::new();
    proof {
        assert(all.skip(0) =~= all);
    }
    while rest.len() > 0
        invariant
            rest@.len() <= all.len(),
            rest@ == all.skip(all.len() - rest@.len()),
            positional@ == of_kind(all.take(all.len() - rest@.len()), true),
            options@ == of_kind(all.take(all.len() - rest@.len()), false),
        decreases rest@.len(),
    {
        let ghost done = (all.len() - rest@.len()) as int;
        let a = rest.remove(0);
        proof {
            assert(all[done] == a);
            assert(all.take(done + 1).drop_last() =~= all.take(done));
            assert(rest@ =~= all.skip(done + 1));
        }
        if a.positional {
            positional.push(a);
        } else {
            options.push(a);
        }
    }
    proof {
        assert(all.take(all.len() as int) =~= all);
    }
    (positional, options)
}

/// The rows of arguments of one kind, one for each, in order.
fn rows_of_kind(args: Vec<HelpArgument>, positional: bool) -> (rows: Vec<(Option<String>, OptionData)>)
    ensures
        rows_for(rows@, args@, positional),
{
    let mut rows: Vec<(Option<String>, OptionData)> = Vec::new();
    let mut i: usize = 0;
    while i < args.len()
        invariant
            i <= args@.len(),
            rows_for(rows@, args@.take(i as int), positional),
        decreases args@.len() - i,
    {
        let a = &args[i];
        let heading = copy_heading(&a.heading);
        let row = if positional {
            option_row(positional_name(&a.arg), None, &a.arg)
        } else {
            option_row(flag_name(&a.arg), flag_value_name(&a.arg), &a.arg)
        };
        let ghost before = rows@;
        rows.push((heading, row));
        proof {
            let now = args@.take(i + 1);
            assert forall|k: int| #![trigger rows@[k]] 0 <= k < rows@.len() implies {
                &&& opt_text(rows@[k].0) == opt_text(now[k].heading)
                &&& if positional {
                    is_option_row(rows@[k].1, positional_name_text(now[k].arg), None, now[k].arg)
                } else {
                    is_option_row(rows@[k].1, flag_name_text(now[k].arg), flag_value_text(now[k].arg), now[k].arg)
                }
            } by {
                if k < before.len() {
                    assert(rows@[k] == before[k]);
                    assert(now[k] == args@.take(i as int)[k]);
                }
            }
        }
        i = i + 1;
    }
    proof {
        assert(args@.take(args@.len() as int) =~= args@);
    }
    rows
}

/// The "Arguments" and "Options" sections of a help page: the arguments
/// not hidden, in display order, the positional ones and the options each
/// grouped by heading.
pub fn argument_sections(args: Vec<HelpArgument>) -> (sections: (Vec<Group<OptionData>>, Vec<Group<OptionData>>))
    ensures
        argument_sections_of(args@, true, sections.0@),
        argument_sections_of(args@, false, sections.1@),
{
    let (positional, options) = split_by_kind(ordered_arguments(args));
    let positional_rows = rows_of_kind(positional, true);
    let option_rows = rows_of_kind(options, false);
    let ghost pos_rows = positional_rows@;
    let ghost opt_rows = option_rows@;
    let arguments = group_by_heading(positional_rows);
    let options = group_by_heading(option_rows);
    proof {
        assert(rows_for(pos_rows, of_kind(ordered_args(args@), true), true));
        assert(rows_for(opt_rows, of_kind(ordered_args(args@), false), false));
    }
    (arguments, options)
}

/// A copy of a heading.
fn copy_heading(h: &Option<String>) -> (r: Option<String>)
    ensures
        r == *h,
{
    match h {
        Some(s) => Some(s.clone()),
        None => None,
    }
}

} // verus!
