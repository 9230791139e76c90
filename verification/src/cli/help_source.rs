//! Reading a command definition for help: the structured help document and
//! the data of the help page, assembled from what clap reports of a command,
//! its arguments and its subcommands.

use vstd::prelude::*;

use crate::cli::default_command::{answers, answers_to, CommandNames};
use crate::cli::help::{
    by_display_order, keyed_by_order, copy_summary, has_command, opt_text, CommandSummary,
    HelpArg, HelpDocument, HelpLength, HelpSubcommand,
};
use crate::cli::help_args::{help_arg, is_help_arg, text_or_empty};
use crate::cli::help_listing::{
    listable, of_kind, ordered_args, ordered_arguments, split_by_kind, HelpArgument, SubcommandFacts,
};
use crate::cli::help::{distinct_names, extract_default_subcommands, extract_grouped_subcommands, grouped_outcome,
    sections_view, summary_row, CommandGroup, Group, OptionData, Subcommand};
use crate::cli::help_listing::{argument_sections, argument_sections_of, listed, listed_subcommands};
use crate::text::{chars_equal, chars_of, slice_to_vec, string_of};
use crate::topics::{lists_topics, TopicListItem, TopicRegistry};

verus! {

broadcast use vstd::string::group_string_axioms;

/// The usage line as help shows it: clap's rendering without its `Usage: `
/// prefix.
pub open spec fn usage_of(rendered: Seq<char>) -> Seq<char> {
    if "Usage: "@.is_prefix_of(rendered) {
        rendered.skip(7)
    } else {
        rendered
    }
}

/// The usage line without its `Usage: ` prefix.
pub fn usage_text(rendered: &str) -> (usage: String)
    ensures
        usage@ == usage_of(rendered@),
{
    proof {
        reveal_strlit("Usage: ");
    }
    let chars = chars_of(rendered);
    let prefix = chars_of("Usage: ");
    if chars.len() >= prefix.len() {
        let head = slice_to_vec(&chars, 0, prefix.len());
        if chars_equal(&head, &prefix) {
            let rest = slice_to_vec(&chars, prefix.len(), chars.len());
            proof {
                assert(rest@ =~= rendered@.skip(7));
            }
            return string_of(&rest);
        }
    }
    proof {
        if "Usage: "@.is_prefix_of(rendered@) {
            assert(chars@.subrange(0, 7) =~= "Usage: "@);
        }
    }
    string_of(&chars)
}

/// The description help shows: the long one under `--help` where the
/// command has it, else the short one; empty when there is none.
pub open spec fn about_of(length: HelpLength, long_about: Option<Seq<char>>, about: Option<Seq<char>>) -> Seq<char> {
    let chosen = match length {
        HelpLength::Long => if long_about is Some {
            long_about
        } else {
            about
        },
        HelpLength::Short => about,
    };
    match chosen {
        Some(t) => t,
        None => seq![],
    }
}

/// The description help shows for the given length.
pub fn about_text(length: HelpLength, long_about: Option<String>, about: Option<String>) -> (text: String)
    ensures
        text@ == about_of(length, opt_text(long_about), opt_text(about)),
{
    let chosen = match length {
        HelpLength::Long => match long_about {
            Some(l) => Some(l),
            None => about,
        },
        HelpLength::Short => about,
    };
    match chosen {
        Some(t) => t,
        None => String::new(),
    }
}

/// `found` is the first subcommand that answers to `name`, or none when no
/// subcommand does.
pub open spec fn first_answering(subs: Seq<CommandNames>, name: Seq<char>, found: Option<usize>) -> bool {
    match found {
        Some(i) => i < subs.len() && answers_to(subs[i as int], name) && forall|k: int|
            0 <= k < i ==> !answers_to(#[trigger] subs[k], name),
        None => forall|k: int| 0 <= k < subs.len() ==> !answers_to(#[trigger] subs[k], name),
    }
}

/// The first subcommand that answers to `name`, by its name or an alias.
pub fn find_subcommand(subs: &Vec<CommandNames>, name: &String) -> (found: Option<usize>)
    ensures
        first_answering(subs@, name@, found),
{
    let mut i: usize = 0;
    while i < subs.len()
        invariant
            i <= subs@.len(),
            forall|k: int| 0 <= k < i ==> !answers_to(#[trigger] subs@[k], name@),
        decreases subs@.len() - i,
    {
        if answers(&subs[i], name) {
            return Some(i);
        }
        i = i + 1;
    }
    None
}

/// The arguments a help document records: the arguments not hidden,
/// positional ones first, each kind in display order.
pub open spec fn document_args(args: Seq<HelpArgument>) -> Seq<HelpArgument> {
    of_kind(ordered_args(args), true) + of_kind(ordered_args(args), false)
}

/// The subcommands a help document records: those not hidden, in display
/// order.
pub open spec fn document_subcommands(subs: Seq<SubcommandFacts>) -> Seq<CommandSummary> {
    by_display_order(listable(subs, true))
}

/// `doc` records the command at the end of `path` with the usage line,
/// description, arguments and subcommands given.
pub open spec fn documents(
    doc: HelpDocument,
    path: Seq<String>,
    usage: Seq<char>,
    about: Seq<char>,
    args: Seq<HelpArgument>,
    subs: Seq<SubcommandFacts>,
) -> bool {
    &&& doc.schema_version == 1
    &&& doc.name@ == path.last()@
    &&& doc.path@ == path
    &&& doc.usage@ == usage
    &&& doc.about@ == about
    &&& doc.args@.len() == document_args(args).len()
    &&& forall|i: int| 0 <= i < doc.args@.len() ==> is_help_arg(#[trigger] doc.args@[i], document_args(args)[i].arg)
    &&& doc.subcommands@.len() == document_subcommands(subs).len()
    &&& forall|i: int| 0 <= i < doc.subcommands@.len() ==> (#[trigger] doc.subcommands@[i]).name@
        == document_subcommands(subs)[i].name@ && doc.subcommands@[i].about@ == document_subcommands(subs)[i].about@
}

/// The records of the arguments, in order.
fn help_args_of(args: &Vec<HelpArgument>) -> (out: Vec<HelpArg>)
    ensures
        out@.len() == args@.len(),
        forall|i: int| 0 <= i < out@.len() ==> is_help_arg(#[trigger] out@[i], args@[i].arg),
{
    let mut out: Vec<HelpArg> = Vec::new();
    let mut i: usize = 0;
    while i < args.len()
        invariant
            i <= args@.len(),
            out@.len() == i,
            forall|k: int| 0 <= k < i ==> is_help_arg(#[trigger] out@[k], args@[k].arg),
        decreases args@.len() - i,
    {
        out.push(help_arg(&args[i].arg));
        i = i + 1;
    }
    out
}

impl HelpDocument {
    /// The help document of the command at the end of `path` (the names from
    /// the root down to it), with its usage line and description, its
    /// arguments not hidden (positional ones first, each kind in display
    /// order) and its subcommands not hidden (in display order).
    pub fn from_parts(path: Vec<String>, usage: String, about: String, args: Vec<HelpArgument>, subs: &Vec<SubcommandFacts>)
        -> (doc: HelpDocument)
        requires
            path@.len() > 0,
        ensures
            documents(doc, path@, usage@, about@, args@, subs@),
    {
        let ghost all = args@;
        let (positional, options) = split_by_kind(ordered_arguments(args));
        let mut recorded = help_args_of(&positional);
        let mut more = help_args_of(&options);
        let ghost first = recorded@;
        let ghost second = more@;
        recorded.append(&mut more);
        proof {
            assert(recorded@ =~= first + second);
            assert forall|i: int| 0 <= i < recorded@.len() implies is_help_arg(
                #[trigger] recorded@[i],
                document_args(all)[i].arg,
            ) by {
                if i < first.len() {
                    assert(recorded@[i] == first[i]);
                } else {
                    assert(recorded@[i] == second[i - first.len()]);
                }
            }
        }
        let listed = document_subcommand_list(subs);
        let mut subcommands: Vec<HelpSubcommand> = Vec::new();
        let mut i: usize = 0;
        while i < listed.len()
            invariant
                i <= listed@.len(),
                subcommands@.len() == i,
                forall|k: int| 0 <= k < i ==> (#[trigger] subcommands@[k]).name@ == listed@[k].name@
                    && subcommands@[k].about@ == listed@[k].about@,
            decreases listed@.len() - i,
        {
            subcommands.push(HelpSubcommand { name: listed[i].name.clone(), about: listed[i].about.clone() });
            i = i + 1;
        }
        let name = path[path.len() - 1].clone();
        HelpDocument { schema_version: 1, name, path, usage, about, args: recorded, subcommands }
    }
}

/// The subcommands a help document records, in display order.
fn document_subcommand_list(subs: &Vec<SubcommandFacts>) -> (listed: Vec<CommandSummary>)
    ensures
        listed@ == document_subcommands(subs@),
{
    let mut keyed: Vec<(usize, CommandSummary)> = Vec::new();
    let mut i: usize = 0;
    while i < subs.len()
        invariant
            i <= subs@.len(),
            keyed@ == keyed_by_order(listable(subs@.take(i as int), true)),
        decreases subs@.len() - i,
    {
        proof {
            assert(subs@.take(i + 1).drop_last() =~= subs@.take(i as int));
        }
        if !subs[i].hidden {
            keyed.push((subs[i].summary.display_order, copy_summary(&subs[i].summary)));
            proof {
                assert(keyed@ =~= keyed_by_order(listable(subs@.take(i + 1), true)));
            }
        }
        i = i + 1;
    }
    proof {
        assert(subs@.take(subs@.len() as int) =~= subs@);
    }
    let sorted = crate::cli::display_order::sort_by_key(keyed);
    let mut listed: Vec<CommandSummary> = Vec::new();
    let mut k: usize = 0;
    while k < sorted.len()
        invariant
            k <= sorted@.len(),
            listed@ == sorted@.take(k as int).map_values(|p: (usize, CommandSummary)| p.1),
        decreases sorted@.len() - k,
    {
        listed.push(copy_summary(&sorted[k].1));
        proof {
            assert(listed@ =~= sorted@.take(k + 1).map_values(|p: (usize, CommandSummary)| p.1));
        }
        k = k + 1;
    }
    proof {
        assert(sorted@.take(sorted@.len() as int) =~= sorted@);
    }
    listed
}

/// The subcommands with, for each name, only its last occurrence; in order.
pub open spec fn last_of_each_name(s: Seq<CommandSummary>) -> Seq<CommandSummary>
    decreases s.len(),
{
    if s.len() == 0 {
        seq![]
    } else {
        let rest = last_of_each_name(s.drop_first());
        if has_command(s.drop_first(), s[0].name@) {
            rest
        } else {
            seq![s[0]] + rest
        }
    }
}

/// What is kept names subcommands of the given ones, and no name twice.
proof fn lemma_last_of_each_name(s: Seq<CommandSummary>)
    ensures
        distinct_names(last_of_each_name(s)),
        forall|i: int| 0 <= i < last_of_each_name(s).len() ==> has_command(s, #[trigger] last_of_each_name(s)[i].name@),
    decreases s.len(),
{
    if s.len() > 0 {
        let t = s.drop_first();
        let rest = last_of_each_name(t);
        lemma_last_of_each_name(t);
        assert forall|i: int| 0 <= i < rest.len() implies has_command(s, #[trigger] rest[i].name@) by {
            let j = choose|j: int| 0 <= j < t.len() && t[j].name@ == rest[i].name@;
            assert(s[j + 1] == t[j]);
        }
        if !has_command(t, s[0].name@) {
            let out = seq![s[0]] + rest;
            assert forall|a: int, b: int| 0 <= a < b < out.len() implies #[trigger] out[a].name@
                != #[trigger] out[b].name@ by {
                if a == 0 {
                    assert(out[b] == rest[b - 1]);
                    if out[a].name@ == out[b].name@ {
                        let j = choose|j: int| 0 <= j < t.len() && t[j].name@ == rest[b - 1].name@;
                        assert(t[j].name@ == s[0].name@);
                    }
                } else {
                    assert(out[a] == rest[a - 1] && out[b] == rest[b - 1]);
                }
            }
            assert forall|i: int| 0 <= i < out.len() implies has_command(s, #[trigger] out[i].name@) by {
                if i == 0 {
                    assert(s[0].name@ == out[0].name@);
                } else {
                    assert(out[i] == rest[i - 1]);
                }
            }
        }
    }
}

/// Whether a later subcommand than the one at `i` has its name.
fn named_again(s: &Vec<CommandSummary>, i: usize) -> (b: bool)
    requires
        i < s@.len(),
    ensures
        b == has_command(s@.skip(i + 1), s@[i as int].name@),
{
    let n = s.len();
    let mut j: usize = i + 1;
    while j < n
        invariant
            n == s@.len(),
            i < j <= s@.len(),
            forall|k: int| i < k < j ==> #[trigger] s@[k].name@ != s@[i as int].name@,
        decreases s@.len() - j,
    {
        if s[j].name == s[i].name {
            proof {
                assert(s@.skip(i + 1)[j - i - 1] == s@[j as int]);
            }
            return true;
        }
        j = j + 1;
    }
    proof {
        let rest = s@.skip(i + 1);
        if has_command(rest, s@[i as int].name@) {
            let k = choose|k: int| 0 <= k < rest.len() && #[trigger] rest[k].name@ == s@[i as int].name@;
            assert(rest[k] == s@[i + 1 + k]);
        }
    }
    false
}

/// The subcommands with, for each name, only its last occurrence.
fn keep_last_of_each_name(s: &Vec<CommandSummary>) -> (out: Vec<CommandSummary>)
    ensures
        out@ == last_of_each_name(s@),
{
    let mut out: Vec<CommandSummary> = Vec::new();
    let mut i: usize = s.len();
    proof {
        assert(s@.skip(s@.len() as int) =~= Seq::<CommandSummary>::empty());
    }
    while i > 0
        invariant
            i <= s@.len(),
            out@ == last_of_each_name(s@.skip(i as int)),
        decreases i,
    {
        i = i - 1;
        proof {
            assert(s@.skip(i as int).drop_first() =~= s@.skip(i + 1));
            assert(s@.skip(i as int)[0] == s@[i as int]);
        }
        if !named_again(s, i) {
            let ghost before = out@;
            out.insert(0, copy_summary(&s[i]));
            proof {
                assert(out@ =~= seq![s@[i as int]] + before);
            }
        }
    }
    proof {
        assert(s@.skip(0) =~= s@);
    }
    out
}

/// The subcommand sections of a help page: one "Commands" section with the
/// listed subcommands (none when there are none); or, with configured
/// groups, the grouped sections of the listed subcommands, a name listed
/// twice counting once, at its last place.
pub open spec fn subcommand_sections_of(listed: Seq<CommandSummary>, groups: Option<Seq<CommandGroup>>, out: Seq<
    Group<Subcommand>,
>) -> bool {
    match groups {
        None => if listed.len() == 0 {
            out.len() == 0
        } else {
            sections_view(out) == seq![(Some("Commands"@), None::<Seq<char>>,
                listed.map_values(|c: CommandSummary| summary_row(c)))]
        },
        Some(g) => grouped_outcome(last_of_each_name(listed), g, out),
    }
}

/// The subcommand sections for the listed subcommands.
pub fn subcommand_sections(listed: &Vec<CommandSummary>, groups: Option<&[CommandGroup]>) -> (out: Vec<
    Group<Subcommand>,
>)
    ensures
        subcommand_sections_of(
            listed@,
            match groups {
                Some(g) => Some(g@),
                None => None,
            },
            out@,
        ),
{
    match groups {
        None => extract_default_subcommands(listed),
        Some(g) => {
            let once = keep_last_of_each_name(listed);
            proof {
                lemma_last_of_each_name(listed@);
            }
            extract_grouped_subcommands(&once, g)
        },
    }
}

/// What a help page shows of a command, before it is laid out.
#[derive(Debug)]
pub struct HelpData {
    /// The command's name.
    pub name: String,
    /// Its description.
    pub about: String,
    /// Its usage line.
    pub usage: String,
    /// The subcommand sections.
    pub subcommands: Vec<Group<Subcommand>>,
    /// The sections of positional arguments.
    pub arguments: Vec<Group<OptionData>>,
    /// The sections of options.
    pub options: Vec<Group<OptionData>>,
    /// The examples text (empty).
    pub examples: String,
    /// The topics a "Learn more" section lists.
    pub learn_more: Vec<TopicListItem>,
}

/// `data` shows the command with the name, description and usage line
/// given, the subcommand sections of the listed subcommands, the sections
/// of its arguments, and the topics given.
pub open spec fn shows(
    data: HelpData,
    name: Seq<char>,
    about: Seq<char>,
    usage: Seq<char>,
    listed: Seq<CommandSummary>,
    groups: Option<Seq<CommandGroup>>,
    args: Seq<HelpArgument>,
    learn_more: Seq<TopicListItem>,
) -> bool {
    &&& data.name@ == name
    &&& data.about@ == about
    &&& data.usage@ == usage
    &&& subcommand_sections_of(listed, groups, data.subcommands@)
    &&& argument_sections_of(args, true, data.arguments@)
    &&& argument_sections_of(args, false, data.options@)
    &&& data.examples@ == Seq::<char>::empty()
    &&& data.learn_more@ == learn_more
}

impl HelpData {
    /// The help page's data from its parts.
    pub fn from_parts(
        name: String,
        about: String,
        usage: String,
        listed: Vec<CommandSummary>,
        groups: Option<&[CommandGroup]>,
        args: Vec<HelpArgument>,
        learn_more: Vec<TopicListItem>,
    ) -> (data: HelpData)
        ensures
            shows(
                data,
                name@,
                about@,
                usage@,
                listed@,
                match groups {
                    Some(g) => Some(g@),
                    None => None,
                },
                args@,
                learn_more@,
            ),
    {
        let subcommands = subcommand_sections(&listed, groups);
        let (arguments, options) = argument_sections(args);
        HelpData { name, about, usage, subcommands, arguments, options, examples: String::new(), learn_more }
    }
}

/// A command as help reads it: its name and the aliases lookup goes by, its
/// descriptions, its rendered usage line, its place in the display order,
/// whether it is hidden, whether the parser's `help` subcommand is turned
/// off under it, its arguments and its subcommands.
#[derive(Debug)]
pub struct HelpNode {
    /// The command's name.
    pub name: String,
    /// The aliases a path may name it by: those declared hidden, which
    /// help does not show (the parser's `get_aliases`).
    pub aliases: Vec<String>,
    /// Its description, if any.
    pub about: Option<String>,
    /// Its long description, if any.
    pub long_about: Option<String>,
    /// Its usage line as the parser renders it (with its `Usage: ` prefix).
    pub usage: String,
    /// Its display order; lower comes first.
    pub display_order: usize,
    /// Whether it is hidden from help.
    pub hidden: bool,
    /// Whether the parser's own `help` subcommand is turned off under it.
    pub help_subcommand_disabled: bool,
    /// Its arguments, in the order they were defined.
    pub args: Vec<HelpArgument>,
    /// Its subcommands, in the order they were added.
    pub subs: Vec<HelpNode>,
}

/// The command answers to `word`, by its name or one of its lookup aliases.
pub open spec fn node_answers(n: HelpNode, word: Seq<char>) -> bool {
    n.name@ == word || exists|j: int| 0 <= j < n.aliases@.len() && n.aliases@[j]@ == word
}

/// The first of the commands that answers to `word`.
pub open spec fn first_answering_node(subs: Seq<HelpNode>, word: Seq<char>) -> Option<HelpNode>
    decreases subs.len(),
{
    if subs.len() == 0 {
        None
    } else if node_answers(subs[0], word) {
        Some(subs[0])
    } else {
        first_answering_node(subs.drop_first(), word)
    }
}

/// The command the words lead to from `t`, each word taken by the first
/// subcommand that answers to it, with the names from `t` down to it; none
/// when some word answers to no subcommand.
pub open spec fn node_at(t: HelpNode, path: Seq<Seq<char>>) -> Option<(HelpNode, Seq<Seq<char>>)>
    decreases path.len(),
{
    if path.len() == 0 {
        Some((t, seq![t.name@]))
    } else {
        match first_answering_node(t.subs@, path[0]) {
            None => None,
            Some(s) => match node_at(s, path.drop_first()) {
                None => None,
                Some((n, names)) => Some((n, seq![t.name@] + names)),
            },
        }
    }
}

/// The words of a path, as texts.
pub open spec fn words(path: Seq<&str>) -> Seq<Seq<char>> {
    path.map_values(|w: &str| w@)
}

/// Strings as their texts.
pub open spec fn name_texts(v: Seq<String>) -> Seq<Seq<char>> {
    v.map_values(|s: String| s@)
}

/// `facts` are what the help page reads of the subcommands, one for one:
/// name, description (empty when there is none), display order, hidden.
pub open spec fn facts_of(facts: Seq<SubcommandFacts>, subs: Seq<HelpNode>) -> bool {
    &&& facts.len() == subs.len()
    &&& forall|i: int| #![trigger facts[i]] 0 <= i < facts.len() ==> {
        &&& facts[i].summary.name == subs[i].name
        &&& facts[i].summary.about@ == text_or_empty(subs[i].about)
        &&& facts[i].summary.display_order == subs[i].display_order
        &&& facts[i].hidden == subs[i].hidden
    }
}

/// Whether the command answers to `word`.
fn answers_word(n: &HelpNode, word: &str) -> (b: bool)
    ensures
        b == node_answers(*n, word@),
{
    let w = chars_of(word);
    if chars_equal(&chars_of(n.name.as_str()), &w) {
        return true;
    }
    let mut j: usize = 0;
    while j < n.aliases.len()
        invariant
            j <= n.aliases@.len(),
            w@ == word@,
            forall|k: int| 0 <= k < j ==> n.aliases@[k]@ != word@,
        decreases n.aliases@.len() - j,
    {
        if chars_equal(&chars_of(n.aliases[j].as_str()), &w) {
            return true;
        }
        j = j + 1;
    }
    false
}

/// Where the first of the commands that answers to `word` stands.
fn find_node(subs: &Vec<HelpNode>, word: &str) -> (found: Option<usize>)
    ensures
        match found {
            Some(k) => k < subs@.len() && first_answering_node(subs@, word@) == Some(subs@[k as int]),
            None => first_answering_node(subs@, word@) is None,
        },
{
    let mut j: usize = 0;
    proof {
        assert(subs@.skip(0) =~= subs@);
    }
    while j < subs.len()
        invariant
            j <= subs@.len(),
            first_answering_node(subs@, word@) == first_answering_node(subs@.skip(j as int), word@),
        decreases subs@.len() - j,
    {
        proof {
            assert(subs@.skip(j as int)[0] == subs@[j as int]);
            assert(subs@.skip(j as int).drop_first() =~= subs@.skip(j + 1));
        }
        if answers_word(&subs[j], word) {
            return Some(j);
        }
        j = j + 1;
    }
    proof {
        assert(subs@.skip(subs@.len() as int) =~= Seq::<HelpNode>::empty());
    }
    None
}

/// Whether an argument takes values: as its declared number of values says,
/// when it declares one, else as its action says.
pub fn arg_takes_values(num_args: Option<bool>, action: bool) -> (takes: bool)
    ensures
        takes == match num_args {
            Some(t) => t,
            None => action,
        },
{
    match num_args {
        Some(t) => t,
        None => action,
    }
}

/// What the help page reads of the subcommands, one for one.
pub fn subcommand_facts(subs: &Vec<HelpNode>) -> (facts: Vec<SubcommandFacts>)
    ensures
        facts_of(facts@, subs@),
{
    let mut facts: Vec<SubcommandFacts> = Vec::new();
    let mut i: usize = 0;
    while i < subs.len()
        invariant
            i <= subs@.len(),
            facts@.len() == i,
            forall|k: int| #![trigger facts@[k]] 0 <= k < i ==> {
                &&& facts@[k].summary.name == subs@[k].name
                &&& facts@[k].summary.about@ == text_or_empty(subs@[k].about)
                &&& facts@[k].summary.display_order == subs@[k].display_order
                &&& facts@[k].hidden == subs@[k].hidden
            },
        decreases subs@.len() - i,
    {
        let sub = &subs[i];
        let about = match &sub.about {
            Some(a) => a.clone(),
            None => String::new(),
        };
        facts.push(
            SubcommandFacts {
                summary: CommandSummary { name: sub.name.clone(), about, display_order: sub.display_order },
                hidden: sub.hidden,
            },
        );
        i = i + 1;
    }
    facts
}

/// The command the path leads to below `root`, with the names from the root
/// down to it; none when a word of the path answers to no subcommand.
pub fn find_subcommand_recursive(root: HelpNode, path: &[&str]) -> (found: Option<(HelpNode, Vec<String>)>)
    ensures
        match node_at(root, words(path@)) {
            None => found is None,
            Some((n, names)) => found matches Some((m, ns)) && m == n && name_texts(ns@) == names,
        },
        found matches Some((_, ns)) ==> ns@.len() > 0,
{
    let ghost segs = words(path@);
    let ghost start = root;
    let mut current = root;
    let mut names: Vec<String> = Vec::new();
    names.push(current.name.clone());
    let mut i: usize = 0;
    proof {
        assert(segs.skip(0) =~= segs);
        assert(name_texts(names@).drop_last() =~= Seq::<Seq<char>>::empty());
        match node_at(current, segs) {
            None => {},
            Some((n, rest)) => {
                assert(name_texts(names@).drop_last() + rest =~= rest);
            },
        }
    }
    while i < path.len()
        invariant
            i <= path@.len(),
            segs == words(path@),
            start == root,
            names@.len() == i + 1,
            names@[i as int] == current.name,
            match node_at(current, segs.skip(i as int)) {
                None => node_at(start, segs) is None,
                Some((n, rest)) => node_at(start, segs) == Some((n, name_texts(names@).drop_last() + rest)),
            },
        decreases path@.len() - i,
    {
        let ghost rest = segs.skip(i as int);
        let ghost before = names@;
        let ghost here = current;
        proof {
            assert(rest[0] == path@[i as int]@);
            assert(rest.drop_first() =~= segs.skip(i + 1));
        }
        match find_node(&current.subs, path[i]) {
            None => {
                proof {
                    assert(node_at(here, rest) is None);
                    assert(node_at(current, segs.skip(i as int)) is None);
                    assert(node_at(start, segs) is None);
                }
                return None;
            },
            Some(k) => {
                let next = current.subs.remove(k);
                current = next;
                names.push(current.name.clone());
                proof {
                    assert(name_texts(names@).drop_last() =~= name_texts(before));
                    assert(name_texts(before) =~= name_texts(before).drop_last() + seq![here.name@]);
                    match node_at(current, segs.skip(i + 1)) {
                        None => {},
                        Some((n, more)) => {
                            assert(name_texts(before).drop_last() + (seq![here.name@] + more) =~= name_texts(
                                names@,
                            ).drop_last() + more);
                        },
                    }
                }
            },
        }
        i = i + 1;
    }
    proof {
        assert(segs.skip(path@.len() as int) =~= Seq::<Seq<char>>::empty());
        assert(name_texts(names@).drop_last() + seq![current.name@] =~= name_texts(names@));
    }
    Some((current, names))
}

/// `d` is the help document of command `n`, reached by the names `names`,
/// with the description for `length`.
pub open spec fn documents_node(d: HelpDocument, n: HelpNode, names: Seq<Seq<char>>, length: HelpLength) -> bool {
    exists|facts: Seq<SubcommandFacts>, path: Seq<String>|
        #![trigger facts_of(facts, n.subs@), name_texts(path)]
        facts_of(facts, n.subs@) && name_texts(path) == names && documents(
            d,
            path,
            usage_of(n.usage@),
            about_of(length, opt_text(n.long_about), opt_text(n.about)),
            n.args@,
            facts,
        )
}

impl HelpDocument {
    /// The help document of the command at `path` below `root` (empty for
    /// the root itself): the path's canonical names, the usage line without
    /// its `Usage: ` prefix, the description for `length`, the arguments not
    /// hidden (positional ones first, each kind in display order) and the
    /// subcommands not hidden (in display order). None when a word of the
    /// path answers to no subcommand, by name or lookup alias.
    pub fn extract(root: HelpNode, path: &[&str], length: HelpLength) -> (doc: Option<HelpDocument>)
        ensures
            match node_at(root, words(path@)) {
                None => doc is None,
                Some((n, names)) => doc matches Some(d) && documents_node(d, n, names, length),
            },
    {
        match find_subcommand_recursive(root, path) {
            None => None,
            Some((node, names)) => {
                let HelpNode {
                    name: _,
                    aliases: _,
                    about,
                    long_about,
                    usage,
                    display_order: _,
                    hidden: _,
                    help_subcommand_disabled: _,
                    args,
                    subs,
                } = node;
                let ghost long_text = opt_text(long_about);
                let ghost short_text = opt_text(about);
                let usage_line = usage_text(usage.as_str());
                let description = about_text(length, long_about, about);
                let facts = subcommand_facts(&subs);
                let ghost names_seen = names@;
                let ghost args_seen = args@;
                let d = HelpDocument::from_parts(names, usage_line, description, args, &facts);
                proof {
                    assert(documents(d, names_seen, usage_of(usage@), about_of(length, long_text, short_text), args_seen, facts@));
                    assert(facts_of(facts@, subs@));
                }
                Some(d)
            },
        }
    }
}

/// `d` is the help page data of command `n`, with the description for
/// `length`, the subcommands it lists (in the configured groups), and its
/// own topics.
pub open spec fn shows_node(d: HelpData, n: HelpNode, length: HelpLength, groups: Option<Seq<CommandGroup>>) -> bool {
    exists|facts: Seq<SubcommandFacts>|
        #![trigger facts_of(facts, n.subs@)]
        facts_of(facts, n.subs@) && shows(
            d,
            n.name@,
            about_of(length, opt_text(n.long_about), opt_text(n.about)),
            usage_of(n.usage@),
            listed(facts, n.help_subcommand_disabled, d.learn_more@.len() > 0),
            groups,
            n.args@,
            d.learn_more@,
        )
}

/// The configured groups, if any, as a sequence.
pub open spec fn groups_view(groups: Option<&[CommandGroup]>) -> Option<Seq<CommandGroup>> {
    match groups {
        Some(g) => Some(g@),
        None => None,
    }
}

/// The data of the help page of the command at `path` below `root`: its
/// name, the description for `length`, the usage line, the subcommands it
/// lists (in `command_groups` when given), its argument and option
/// sections, and the registry's topics to learn more from. None when a word
/// of the path answers to no subcommand.
pub fn extract_help_data(
    root: HelpNode,
    path: &[&str],
    command_groups: Option<&[CommandGroup]>,
    length: HelpLength,
    registry: Option<&TopicRegistry>,
) -> (data: Option<HelpData>)
    ensures
        match node_at(root, words(path@)) {
            None => data is None,
            Some((n, _)) => data matches Some(d) && shows_node(d, n, length, groups_view(command_groups)) && match registry {
                Some(r) => lists_topics(r@, d.learn_more@),
                None => d.learn_more@.len() == 0,
            },
        },
{
    match find_subcommand_recursive(root, path) {
        None => None,
        Some((node, _)) => {
            let HelpNode {
                name,
                aliases: _,
                about,
                long_about,
                usage,
                display_order: _,
                hidden: _,
                help_subcommand_disabled,
                args,
                subs,
            } = node;
            let learn_more = match registry {
                Some(r) => r.topic_list_items(),
                None => Vec::new(),
            };
            let facts = subcommand_facts(&subs);
            let shown = listed_subcommands(&facts, help_subcommand_disabled, learn_more.len() > 0);
            let ghost long_text = opt_text(long_about);
            let ghost short_text = opt_text(about);
            let usage_line = usage_text(usage.as_str());
            let description = about_text(length, long_about, about);
            let ghost name_seen = name@;
            let ghost args_seen = args@;
            let d = HelpData::from_parts(name, description, usage_line, shown, command_groups, args, learn_more);
            proof {
                assert(facts_of(facts@, subs@));
                assert(shows(
                    d,
                    name_seen,
                    about_of(length, long_text, short_text),
                    usage_of(usage@),
                    listed(facts@, help_subcommand_disabled, d.learn_more@.len() > 0),
                    groups_view(command_groups),
                    args_seen,
                    d.learn_more@,
                ));
            }
            Some(d)
        },
    }
}

} // verus!
