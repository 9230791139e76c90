//! Help: the configuration of the help page, its subcommand groups and
//! option sections, and the structured help document.

use vstd::prelude::*;

use crate::cli::display_order::{keyed_sort, lemma_keyed_sort, sort_by_key};
use crate::cli::help_source::HelpNode;
use crate::cli::representation::Representation;
use crate::setup::SetupError;
use crate::text::{
    chars_equal, chars_of, concat, join, join_seq, lemma_lex_lt_transitive, lemma_lex_lt_trichotomy,
    lex_less, lex_lt, string_of,
};

verus! {

broadcast use vstd::string::group_string_axioms;

/// A named section of subcommands on the help page.
///
/// A `None` entry in `commands` is a blank separator line between commands.
#[derive(Debug, Clone, Default)]
pub struct CommandGroup {
    /// The section header.
    pub title: String,
    /// Text shown under the header, before the commands.
    pub help: Option<String>,
    /// Command names in display order; `None` is a separator.
    pub commands: Vec<Option<String>>,
}

/// How the help page is rendered.
#[derive(Debug, Clone, Default)]
pub struct HelpConfig {
    /// A custom template; the default template when `None`.
    pub template: Option<String>,
    /// The representation to render in; detected when `None`.
    pub output_mode: Option<Representation>,
    /// The subcommand sections; one "Commands" section when `None`.
    pub command_groups: Option<Vec<CommandGroup>>,
}

/// How much of a command's description help shows: the short one, or the
/// long one where the command has it.
#[derive(Debug, Clone, Copy, PartialEq, Eq, Structural)]
pub enum HelpLength {
    /// The description (`-h`).
    Short,
    /// The long description, else the description (`--help`).
    Long,
}

/// The help of one command as a structured document: what `--help` answers
/// under the structured representations.
#[derive(Debug, Clone, PartialEq, Eq)]
pub struct HelpDocument {
    /// The document's schema version.
    pub schema_version: u32,
    /// The command's name.
    pub name: String,
    /// The names from the root command down to this one.
    pub path: Vec<String>,
    /// The usage line, without its `Usage: ` prefix.
    pub usage: String,
    /// The command's description.
    pub about: String,
    /// The arguments help shows, positionals first.
    pub args: Vec<HelpArg>,
    /// The subcommands help shows.
    pub subcommands: Vec<HelpSubcommand>,
}

/// One argument of a help document.
#[derive(Debug, Clone, PartialEq, Eq)]
pub struct HelpArg {
    /// The argument's id.
    pub name: String,
    /// The short flag, as `-x`.
    pub short: Option<String>,
    /// The long flag, as `--name`.
    pub long: Option<String>,
    /// The value placeholder, when it takes values.
    pub value_name: Option<String>,
    /// Whether it must be given.
    pub required: bool,
    /// Its help text.
    pub help: String,
    /// Its default value, if any.
    pub default: Option<String>,
    /// The values it accepts, when it lists them.
    pub possible_values: Vec<String>,
}

/// One subcommand of a help document.
#[derive(Debug, Clone, PartialEq, Eq)]
pub struct HelpSubcommand {
    /// The subcommand's name.
    pub name: String,
    /// Its description.
    pub about: String,
}

/// `known` holds a name whose text is `name`.
pub open spec fn known_name(known: Seq<String>, name: Seq<char>) -> bool {
    exists|i: int| 0 <= i < known.len() && known[i]@ == name
}

/// The line that reports `name`, listed in the group titled `title`, as a
/// command that does not exist.
pub open spec fn phantom_line(title: Seq<char>, name: Seq<char>) -> Seq<char> {
    "group \""@ + title + "\": command \""@ + name + "\" does not exist"@
}

/// The lines for the names among `entries` that `known` lacks, in order.
pub open spec fn entry_phantoms(known: Seq<String>, title: Seq<char>, entries: Seq<Option<String>>) -> Seq<Seq<char>>
    decreases entries.len(),
{
    if entries.len() == 0 {
        seq![]
    } else {
        let before = entry_phantoms(known, title, entries.drop_last());
        match entries.last() {
            Some(name) => if known_name(known, name@) {
                before
            } else {
                before.push(phantom_line(title, name@))
            },
            None => before,
        }
    }
}

/// The lines for every unknown name in every group, groups in order.
pub open spec fn group_phantoms(known: Seq<String>, groups: Seq<CommandGroup>) -> Seq<Seq<char>>
    decreases groups.len(),
{
    if groups.len() == 0 {
        seq![]
    } else {
        group_phantoms(known, groups.drop_last())
            + entry_phantoms(known, groups.last().title@, groups.last().commands@)
    }
}

/// The configuration error's text for the reported lines.
pub open spec fn group_validation_text(lines: Seq<Seq<char>>) -> Seq<char> {
    "command group validation failed:\n  "@ + join_seq(lines, "\n  "@)
}

/// Whether `known` holds a name equal to `name`.
fn is_known(known: &Vec<String>, name: &String) -> (b: bool)
    ensures
        b == known_name(known@, name@),
{
    let mut i: usize = 0;
    while i < known.len()
        invariant
            i <= known@.len(),
            forall|j: int| 0 <= j < i ==> known@[j]@ != name@,
        decreases known@.len() - i,
    {
        if known[i] == *name {
            return true;
        }
        i = i + 1;
    }
    false
}

/// What checking `groups` against the names in `known` answers.
pub open spec fn group_check_outcome(known: Seq<String>, groups: Seq<CommandGroup>, r: Result<(), SetupError>) -> bool {
    &&& group_phantoms(known, groups).len() == 0 ==> r is Ok
    &&& group_phantoms(known, groups).len() > 0 ==> (r matches Err(SetupError::Config(m))
        && m@ == group_validation_text(group_phantoms(known, groups)))
}

/// Check command groups against the names of the commands that exist:
/// every name a group lists must be one of `known`. Commands no group
/// lists are fine; they are shown in an "Other" section.
pub fn check_command_groups(known: &Vec<String>, groups: &[CommandGroup]) -> (r: Result<(), SetupError>)
    ensures
        group_check_outcome(known@, groups@, r),
{
    let mut lines: Vec<Vec<char>> = Vec::new();
    let mut i: usize = 0;
    while i < groups.len()
        invariant
            i <= groups@.len(),
            lines@.map_values(|l: Vec<char>| l@) == group_phantoms(known@, groups@.take(i as int)),
        decreases groups@.len() - i,
    {
        let group = &groups[i];
        let ghost base = lines@.map_values(|l: Vec<char>| l@);
        let mut j: usize = 0;
        while j < group.commands.len()
            invariant
                i < groups@.len(),
                group == groups@[i as int],
                j <= group.commands@.len(),
                lines@.map_values(|l: Vec<char>| l@)
                    == base + entry_phantoms(known@, group.title@, group.commands@.take(j as int)),
            decreases group.commands@.len() - j,
        {
            proof {
                assert(group.commands@.take(j + 1).drop_last() =~= group.commands@.take(j as int));
            }
            match &group.commands[j] {
                Some(name) => {
                    if !is_known(known, name) {
                        let a = concat("group \"", group.title.as_str());
                        let b = concat(a.as_str(), "\": command \"");
                        let c = concat(b.as_str(), name.as_str());
                        let d = concat(c.as_str(), "\" does not exist");
                        let ghost before = lines@;
                        lines.push(chars_of(d.as_str()));
                        proof {
                            assert(lines@.map_values(|l: Vec<char>| l@) =~= before.map_values(
                                |l: Vec<char>| l@,
                            ).push(phantom_line(group.title@, name@)));
                        }
                    }
                },
                None => {},
            }
            j = j + 1;
        }
        proof {
            assert(group.commands@.take(group.commands@.len() as int) =~= group.commands@);
            assert(groups@.take(i + 1).drop_last() =~= groups@.take(i as int));
        }
        i = i + 1;
    }
    proof {
        assert(groups@.take(groups@.len() as int) =~= groups@);
    }
    if lines.len() == 0 {
        Ok(())
    } else {
        let sep = chars_of("\n  ");
        let body = join(&lines, &sep);
        let text = concat("command group validation failed:\n  ", string_of(&body).as_str());
        Err(SetupError::Config(text))
    }
}

/// A subcommand as the help page reads it: its name, its one-line
/// description, and its place in the display order.
#[derive(Debug)]
pub struct CommandSummary {
    /// The subcommand's name.
    pub name: String,
    /// Its one-line description (empty when it has none).
    pub about: String,
    /// Its display order; lower comes first.
    pub display_order: usize,
}

/// A row of a subcommand section: a command, or a separator line.
#[derive(Debug)]
pub struct Subcommand {
    /// The command's name (empty for a separator).
    pub name: String,
    /// The command's description (empty for a separator).
    pub about: String,
    /// Whether this row is a blank separator line.
    pub separator: bool,
}

/// A titled section of rows on the help page.
#[derive(Debug)]
pub struct Group<T> {
    /// The section header, if it has one.
    pub title: Option<String>,
    /// Text shown under the header.
    pub help: Option<String>,
    /// The section's rows, in display order.
    pub items: Vec<T>,
}

/// An optional string as optional text.
pub open spec fn opt_text(o: Option<String>) -> Option<Seq<char>> {
    match o {
        Some(s) => Some(s@),
        None => None,
    }
}

/// A row as plain values: name, description, and whether it is a separator.
pub open spec fn row_view(r: Subcommand) -> (Seq<char>, Seq<char>, bool) {
    (r.name@, r.about@, r.separator)
}

/// The row that shows a subcommand.
pub open spec fn summary_row(c: CommandSummary) -> (Seq<char>, Seq<char>, bool) {
    (c.name@, c.about@, false)
}

/// The blank separator row.
pub open spec fn separator_row() -> (Seq<char>, Seq<char>, bool) {
    (seq![], seq![], true)
}

/// Rows as plain values.
pub open spec fn rows_view(items: Seq<Subcommand>) -> Seq<(Seq<char>, Seq<char>, bool)> {
    items.map_values(|r: Subcommand| row_view(r))
}

/// A section as plain values: title, help text, rows.
pub open spec fn section_view(g: Group<Subcommand>) -> (Option<Seq<char>>, Option<Seq<char>>, Seq<(Seq<char>, Seq<char>, bool)>) {
    (opt_text(g.title), opt_text(g.help), rows_view(g.items@))
}

/// Sections as plain values.
pub open spec fn sections_view(gs: Seq<Group<Subcommand>>) -> Seq<(Option<Seq<char>>, Option<Seq<char>>, Seq<(Seq<char>, Seq<char>, bool)>)> {
    gs.map_values(|g: Group<Subcommand>| section_view(g))
}

/// No two subcommands share a name (clap refuses such a definition).
pub open spec fn distinct_names(subs: Seq<CommandSummary>) -> bool {
    forall|a: int, b: int| 0 <= a < b < subs.len() ==> #[trigger] subs[a].name@ != #[trigger] subs[b].name@
}

/// Some subcommand is named `name`.
pub open spec fn has_command(subs: Seq<CommandSummary>, name: Seq<char>) -> bool {
    exists|i: int| 0 <= i < subs.len() && subs[i].name@ == name
}

/// The subcommand named `name`.
pub open spec fn command_named(subs: Seq<CommandSummary>, name: Seq<char>) -> CommandSummary {
    subs[choose|i: int| 0 <= i < subs.len() && subs[i].name@ == name]
}

/// The rows a group's entries give, and the names claimed after them: a
/// separator for each `None`, and a row for each name of a subcommand that
/// no earlier entry (here or in an earlier group) has claimed.
pub open spec fn entry_rows(subs: Seq<CommandSummary>, claimed: Set<Seq<char>>, entries: Seq<Option<String>>)
    -> (Seq<(Seq<char>, Seq<char>, bool)>, Set<Seq<char>>)
    decreases entries.len(),
{
    if entries.len() == 0 {
        (seq![], claimed)
    } else {
        let (rows, c) = entry_rows(subs, claimed, entries.drop_last());
        match entries.last() {
            None => (rows.push(separator_row()), c),
            Some(name) => if has_command(subs, name@) && !c.contains(name@) {
                (rows.push(summary_row(command_named(subs, name@))), c.insert(name@))
            } else {
                (rows, c)
            },
        }
    }
}

/// The sections the configured groups give, in order, leaving out a group
/// with no rows; and the names they claimed.
pub open spec fn grouped_sections(subs: Seq<CommandSummary>, groups: Seq<CommandGroup>)
    -> (Seq<(Option<Seq<char>>, Option<Seq<char>>, Seq<(Seq<char>, Seq<char>, bool)>)>, Set<Seq<char>>)
    decreases groups.len(),
{
    if groups.len() == 0 {
        (seq![], Set::empty())
    } else {
        let (secs, claimed) = grouped_sections(subs, groups.drop_last());
        let g = groups.last();
        let (rows, c) = entry_rows(subs, claimed, g.commands@);
        if rows.len() > 0 {
            (secs.push((Some(g.title@), opt_text(g.help), rows)), c)
        } else {
            (secs, c)
        }
    }
}

/// The subcommands no group claimed, in their given order.
pub open spec fn unclaimed(subs: Seq<CommandSummary>, claimed: Set<Seq<char>>) -> Seq<CommandSummary>
    decreases subs.len(),
{
    if subs.len() == 0 {
        seq![]
    } else {
        let rest = unclaimed(subs.drop_last(), claimed);
        if claimed.contains(subs.last().name@) {
            rest
        } else {
            rest.push(subs.last())
        }
    }
}

/// Subcommands keyed by their display order.
pub open spec fn keyed_by_order(s: Seq<CommandSummary>) -> Seq<(usize, CommandSummary)> {
    s.map_values(|c: CommandSummary| (c.display_order, c))
}

/// The subcommands in display order, those with equal order kept in their
/// given order.
pub open spec fn by_display_order(s: Seq<CommandSummary>) -> Seq<CommandSummary> {
    keyed_sort(keyed_by_order(s)).map_values(|p: (usize, CommandSummary)| p.1)
}

/// What the grouped subcommand sections are: the configured groups' sections,
/// then, when some subcommand is left over, an "Other" section with the
/// left-over subcommands in display order.
pub open spec fn grouped_outcome(subs: Seq<CommandSummary>, groups: Seq<CommandGroup>, out: Seq<Group<Subcommand>>) -> bool {
    let (secs, claimed) = grouped_sections(subs, groups);
    let rest = unclaimed(subs, claimed);
    if rest.len() == 0 {
        sections_view(out) == secs
    } else {
        &&& out.len() == secs.len() + 1
        &&& sections_view(out).take(secs.len() as int) == secs
        &&& out.last().title matches Some(t) && t@ == "Other"@
        &&& out.last().help is None
        &&& rows_view(out.last().items@) == by_display_order(rest).map_values(|c: CommandSummary| summary_row(c))
    }
}

/// A copy of a subcommand summary.
pub(crate) fn copy_summary(c: &CommandSummary) -> (r: CommandSummary)
    ensures
        r == *c,
{
    CommandSummary { name: c.name.clone(), about: c.about.clone(), display_order: c.display_order }
}

/// The row that shows a subcommand.
fn subcommand_row(c: &CommandSummary) -> (r: Subcommand)
    ensures
        row_view(r) == summary_row(*c),
{
    Subcommand { name: c.name.clone(), about: c.about.clone(), separator: false }
}

/// A copy of an optional string.
fn copy_opt(o: &Option<String>) -> (r: Option<String>)
    ensures
        r == *o,
{
    match o {
        Some(s) => Some(s.clone()),
        None => None,
    }
}

/// Where the subcommand named `name` stands.
fn find_command(subs: &Vec<CommandSummary>, name: &String) -> (found: Option<usize>)
    requires
        distinct_names(subs@),
    ensures
        match found {
            Some(i) => i < subs@.len() && subs@[i as int].name@ == name@ && has_command(subs@, name@)
                && command_named(subs@, name@) == subs@[i as int],
            None => !has_command(subs@, name@),
        },
{
    let mut i: usize = 0;
    while i < subs.len()
        invariant
            i <= subs@.len(),
            distinct_names(subs@),
            forall|j: int| 0 <= j < i ==> subs@[j].name@ != name@,
        decreases subs@.len() - i,
    {
        if subs[i].name == *name {
            proof {
                let k = choose|k: int| 0 <= k < subs@.len() && subs@[k].name@ == name@;
                if k != i {
                    if k < i {
                        assert(subs@[k].name@ != subs@[i as int].name@);
                    } else {
                        assert(subs@[i as int].name@ != subs@[k].name@);
                    }
                }
            }
            return Some(i);
        }
        i = i + 1;
    }
    None
}

/// The one "Commands" section listing every subcommand, or no section when
/// there are none.
pub fn extract_default_subcommands(subs: &Vec<CommandSummary>) -> (out: Vec<Group<Subcommand>>)
    ensures
        subs@.len() == 0 ==> out@.len() == 0,
        subs@.len() > 0 ==> sections_view(out@) == seq![(Some("Commands"@), None::<Seq<char>>,
            subs@.map_values(|c: CommandSummary| summary_row(c)))],
{
    let mut out: Vec<Group<Subcommand>> = Vec::new();
    if subs.len() == 0 {
        return out;
    }
    let mut items: Vec<Subcommand> = Vec::new();
    let mut i: usize = 0;
    while i < subs.len()
        invariant
            i <= subs@.len(),
            rows_view(items@) == subs@.take(i as int).map_values(|c: CommandSummary| summary_row(c)),
        decreases subs@.len() - i,
    {
        let row = subcommand_row(&subs[i]);
        let ghost before = items@;
        items.push(row);
        proof {
            assert(rows_view(items@) =~= rows_view(before).push(row_view(row)));
            assert(subs@.take(i + 1).map_values(|c: CommandSummary| summary_row(c)) =~= subs@.take(
                i as int,
            ).map_values(|c: CommandSummary| summary_row(c)).push(summary_row(subs@[i as int])));
        }
        i = i + 1;
    }
    proof {
        assert(subs@.take(subs@.len() as int) =~= subs@);
    }
    out.push(Group { title: Some("Commands".to_owned()), help: None, items });
    proof {
        assert(sections_view(out@) =~= seq![(Some("Commands"@), None::<Seq<char>>,
            subs@.map_values(|c: CommandSummary| summary_row(c)))]);
    }
    out
}

/// The flags mark exactly the subcommands whose names are claimed.
pub open spec fn flags_match(flags: Seq<bool>, subs: Seq<CommandSummary>, claimed: Set<Seq<char>>) -> bool {
    &&& flags.len() == subs.len()
    &&& forall|k: int| 0 <= k < subs.len() ==> #[trigger] flags[k] == claimed.contains(subs[k].name@)
}

/// The subcommand sections for configured groups: each group's rows in its
/// order (a separator for each `None`, the named subcommand for each name
/// not already shown), leaving out empty groups and names that are no
/// subcommand, then the subcommands no group names in an "Other" section
/// in display order.
pub fn extract_grouped_subcommands(subs: &Vec<CommandSummary>, groups: &[CommandGroup]) -> (out: Vec<Group<Subcommand>>)
    requires
        distinct_names(subs@),
    ensures
        grouped_outcome(subs@, groups@, out@),
{
    let mut flags: Vec<bool> = Vec::new();
    let mut k: usize = 0;
    while k < subs.len()
        invariant
            k <= subs@.len(),
            flags@.len() == k,
            forall|m: int| 0 <= m < k ==> !flags@[m],
        decreases subs@.len() - k,
    {
        flags.push(false);
        k = k + 1;
    }
    let ghost mut claimed: Set<Seq<char>> = Set::empty();
    let mut out: Vec<Group<Subcommand>> = Vec::new();
    let mut i: usize = 0;
    while i < groups.len()
        invariant
            i <= groups@.len(),
            distinct_names(subs@),
            flags_match(flags@, subs@, claimed),
            sections_view(out@) == grouped_sections(subs@, groups@.take(i as int)).0,
            claimed == grouped_sections(subs@, groups@.take(i as int)).1,
        decreases groups@.len() - i,
    {
        let group = &groups[i];
        let ghost start = claimed;
        let mut rows: Vec<Subcommand> = Vec::new();
        let mut j: usize = 0;
        while j < group.commands.len()
            invariant
                i < groups@.len(),
                group == groups@[i as int],
                j <= group.commands@.len(),
                distinct_names(subs@),
                flags_match(flags@, subs@, claimed),
                rows_view(rows@) == entry_rows(subs@, start, group.commands@.take(j as int)).0,
                claimed == entry_rows(subs@, start, group.commands@.take(j as int)).1,
            decreases group.commands@.len() - j,
        {
            proof {
                assert(group.commands@.take(j + 1).drop_last() =~= group.commands@.take(j as int));
            }
            let ghost rows_before = rows@;
            match &group.commands[j] {
                None => {
                    rows.push(Subcommand { name: String::new(), about: String::new(), separator: true });
                    proof {
                        assert(rows_view(rows@) =~= rows_view(rows_before).push(separator_row()));
                    }
                },
                Some(name) => {
                    match find_command(subs, name) {
                        Some(k) => {
                            if !flags[k] {
                                let row = subcommand_row(&subs[k]);
                                rows.push(row);
                                flags.set(k, true);
                                proof {
                                    assert(rows_view(rows@) =~= rows_view(rows_before).push(row_view(row)));
                                    let old_claimed = claimed;
                                    claimed = claimed.insert(name@);
                                    assert forall|m: int| 0 <= m < subs@.len() implies
                                        #[trigger] flags@[m] == claimed.contains(subs@[m].name@) by {
                                        if m != k {
                                            if m < k {
                                                assert(subs@[m].name@ != subs@[k as int].name@);
                                            } else {
                                                assert(subs@[k as int].name@ != subs@[m].name@);
                                            }
                                        }
                                    }
                                }
                            }
                        },
                        None => {},
                    }
                },
            }
            j = j + 1;
        }
        proof {
            assert(group.commands@.take(group.commands@.len() as int) =~= group.commands@);
            assert(groups@.take(i + 1).drop_last() =~= groups@.take(i as int));
        }
        if rows.len() > 0 {
            let ghost out_before = out@;
            let title = group.title.clone();
            let help = copy_opt(&group.help);
            out.push(Group { title: Some(title), help, items: rows });
            proof {
                assert(sections_view(out@) =~= sections_view(out_before).push(section_view(out@.last())));
            }
        }
        i = i + 1;
    }
    proof {
        assert(groups@.take(groups@.len() as int) =~= groups@);
    }
    let mut keyed: Vec<(usize, CommandSummary)> = Vec::new();
    let mut k: usize = 0;
    while k < subs.len()
        invariant
            k <= subs@.len(),
            flags_match(flags@, subs@, claimed),
            keyed@ == keyed_by_order(unclaimed(subs@.take(k as int), claimed)),
        decreases subs@.len() - k,
    {
        proof {
            assert(subs@.take(k + 1).drop_last() =~= subs@.take(k as int));
        }
        if !flags[k] {
            let ghost before = keyed@;
            let copy = copy_summary(&subs[k]);
            keyed.push((subs[k].display_order, copy));
            proof {
                assert(keyed@ =~= keyed_by_order(unclaimed(subs@.take(k + 1), claimed)));
            }
        }
        k = k + 1;
    }
    proof {
        assert(subs@.take(subs@.len() as int) =~= subs@);
    }
    let sorted = sort_by_key(keyed);
    proof {
        lemma_keyed_sort(keyed_by_order(unclaimed(subs@, claimed)));
    }
    if sorted.len() > 0 {
        let mut items: Vec<Subcommand> = Vec::new();
        let mut m: usize = 0;
        while m < sorted.len()
            invariant
                m <= sorted@.len(),
                rows_view(items@) == sorted@.take(m as int).map_values(
                    |p: (usize, CommandSummary)| summary_row(p.1),
                ),
            decreases sorted@.len() - m,
        {
            let row = subcommand_row(&sorted[m].1);
            let ghost before = items@;
            items.push(row);
            proof {
                assert(rows_view(items@) =~= rows_view(before).push(row_view(row)));
                assert(sorted@.take(m + 1).map_values(|p: (usize, CommandSummary)| summary_row(p.1))
                    =~= sorted@.take(m as int).map_values(|p: (usize, CommandSummary)| summary_row(p.1)).push(
                    summary_row(sorted@[m as int].1),
                ));
            }
            m = m + 1;
        }
        proof {
            assert(sorted@.take(sorted@.len() as int) =~= sorted@);
            assert(rows_view(items@) =~= by_display_order(unclaimed(subs@, claimed)).map_values(
                |c: CommandSummary| summary_row(c),
            ));
        }
        let ghost out_before = out@;
        out.push(Group { title: Some("Other".to_owned()), help: None, items });
        proof {
            assert(sections_view(out@).take(out_before.len() as int) =~= sections_view(out_before));
        }
    } else {
        proof {
            assert(unclaimed(subs@, claimed).len() == 0);
        }
    }
    out
}

/// The order of section headings: no heading first, then headings in
/// string order.
pub open spec fn heading_lt(a: Option<Seq<char>>, b: Option<Seq<char>>) -> bool {
    match (a, b) {
        (None, Some(_)) => true,
        (Some(x), Some(y)) => lex_lt(x, y),
        _ => false,
    }
}

/// `heading_lt` is transitive.
pub proof fn lemma_heading_lt_transitive(a: Option<Seq<char>>, b: Option<Seq<char>>, c: Option<Seq<char>>)
    requires
        heading_lt(a, b),
        heading_lt(b, c),
    ensures
        heading_lt(a, c),
{
    if a is Some {
        lemma_lex_lt_transitive(a->0, b->0, c->0);
    }
}

/// Two different headings are ordered one way or the other, never both.
pub proof fn lemma_heading_trichotomy(a: Option<Seq<char>>, b: Option<Seq<char>>)
    ensures
        a == b || heading_lt(a, b) || heading_lt(b, a),
        !(heading_lt(a, b) && heading_lt(b, a)),
        !heading_lt(a, a),
{
    if a is Some && b is Some {
        lemma_lex_lt_trichotomy(a->0, b->0);
    }
    if a is Some {
        lemma_lex_lt_trichotomy(a->0, a->0);
    }
}

/// The items of the rows under heading `h`, in order.
pub open spec fn items_under<T>(rows: Seq<(Option<String>, T)>, h: Option<Seq<char>>) -> Seq<T>
    decreases rows.len(),
{
    if rows.len() == 0 {
        seq![]
    } else {
        let before = items_under(rows.drop_last(), h);
        if opt_text(rows.last().0) == h {
            before.push(rows.last().1)
        } else {
            before
        }
    }
}

/// Rows grouped by heading: one section per heading the rows carry, in
/// heading order, each with the items of its rows in order.
pub open spec fn grouped_by_heading<T>(rows: Seq<(Option<String>, T)>, out: Seq<Group<T>>) -> bool {
    &&& forall|a: int, b: int| 0 <= a < b < out.len() ==>
        heading_lt(opt_text(#[trigger] out[a].title), opt_text(#[trigger] out[b].title))
    &&& forall|g: int| 0 <= g < out.len() ==> (#[trigger] out[g]).help is None
        && out[g].items@ == items_under(rows, opt_text(out[g].title))
        && out[g].items@.len() > 0
    &&& forall|i: int| 0 <= i < rows.len() ==> exists|g: int| 0 <= g < out.len()
        && #[trigger] opt_text(out[g].title) == opt_text(#[trigger] rows[i].0)
}

/// A heading some row's items fall under is the heading of some row.
proof fn lemma_items_under_heading<T>(rows: Seq<(Option<String>, T)>, h: Option<Seq<char>>)
    requires
        items_under(rows, h).len() > 0,
    ensures
        exists|i: int| 0 <= i < rows.len() && opt_text(rows[i].0) == h,
    decreases rows.len(),
{
    if opt_text(rows.last().0) != h {
        lemma_items_under_heading(rows.drop_last(), h);
        let i = choose|i: int| 0 <= i < rows.drop_last().len() && opt_text(rows.drop_last()[i].0) == h;
        assert(rows[i] == rows.drop_last()[i]);
    }
}

/// Whether heading `a` sorts before heading `b`.
fn heading_less(a: &Option<String>, b: &Option<String>) -> (r: bool)
    ensures
        r == heading_lt(opt_text(*a), opt_text(*b)),
{
    match (a, b) {
        (None, Some(_)) => true,
        (Some(x), Some(y)) => lex_less(&chars_of(x.as_str()), &chars_of(y.as_str())),
        _ => false,
    }
}

/// Whether two headings are the same.
fn same_heading(a: &Option<String>, b: &Option<String>) -> (r: bool)
    ensures
        r == (opt_text(*a) == opt_text(*b)),
{
    match (a, b) {
        (None, None) => true,
        (Some(x), Some(y)) => chars_equal(&chars_of(x.as_str()), &chars_of(y.as_str())),
        _ => false,
    }
}

/// Group rows into sections by their heading: one section per heading, no
/// heading first and the rest in string order, each section's items in the
/// order the rows gave them.
pub fn group_by_heading<T>(rows: Vec<(Option<String>, T)>) -> (out: Vec<Group<T>>)
    ensures
        grouped_by_heading(rows@, out@),
{
    let ghost all = rows@;
    let total = rows.len();
    let mut rest = rows;
    let mut out: Vec<Group<T>> = Vec::new();
    let mut n: usize = 0;
    proof {
        assert(all.skip(0) =~= all);
        assert(all.len() == total);
    }
    while rest.len() > 0
        invariant
            n <= all.len(),
            all.len() <= usize::MAX,
            rest@ == all.skip(n as int),
            grouped_by_heading(all.take(n as int), out@),
        decreases rest@.len(),
    {
        let ghost done = all.take(n as int);
        assert(n < all.len());
        let (heading, item) = rest.remove(0);
        proof {
            assert(all.take(n + 1).drop_last() =~= done);
            assert(all[n as int] == (heading, item));
            assert(rest@ =~= all.skip(n + 1));
        }
        let ghost next = all.take(n + 1);
        let ghost h = opt_text(heading);
        let mut g: usize = 0;
        while g < out.len() && heading_less(&out[g].title, &heading)
            invariant
                g <= out@.len(),
                forall|k: int| 0 <= k < g ==> heading_lt(opt_text(#[trigger] out@[k].title), h),
                h == opt_text(heading),
            decreases out@.len() - g,
        {
            g = g + 1;
        }
        let found = g < out.len() && same_heading(&out[g].title, &heading);
        let ghost before = out@;
        if found {
            out[g].items.push(item);
            proof {
                assert forall|k: int| 0 <= k < out@.len() implies (#[trigger] out@[k]).help is None
                    && out@[k].items@ == items_under(next, opt_text(out@[k].title))
                    && out@[k].items@.len() > 0 by {
                    assert(out@[k].title == before[k].title);
                    if k != g {
                        assert(out@[k] == before[k]);
                        lemma_heading_trichotomy(opt_text(before[k].title), h);
                        if k < g {
                            lemma_heading_trichotomy(opt_text(before[g as int].title), h);
                        }
                    }
                }
                assert forall|a: int, b: int| 0 <= a < b < out@.len() implies
                    heading_lt(opt_text(#[trigger] out@[a].title), opt_text(#[trigger] out@[b].title)) by {
                    assert(out@[a].title == before[a].title && out@[b].title == before[b].title);
                }
                assert forall|i: int| 0 <= i < next.len() implies exists|k: int| 0 <= k < out@.len()
                    && #[trigger] opt_text(out@[k].title) == opt_text(#[trigger] next[i].0) by {
                    if i < n {
                        assert(next[i] == done[i]);
                        let k = choose|k: int| 0 <= k < before.len() && opt_text(before[k].title) == opt_text(done[i].0);
                        assert(out@[k].title == before[k].title);
                    } else {
                        assert(out@[g as int].title == before[g as int].title);
                    }
                }
            }
        } else {
            proof {
                if g < before.len() {
                    lemma_heading_trichotomy(opt_text(before[g as int].title), h);
                }
                if items_under(done, h).len() > 0 {
                    lemma_items_under_heading(done, h);
                    let i = choose|i: int| 0 <= i < done.len() && opt_text(done[i].0) == h;
                    let k = choose|k: int| 0 <= k < before.len() && opt_text(before[k].title) == opt_text(done[i].0);
                    if k < g {
                        lemma_heading_trichotomy(opt_text(before[k].title), h);
                    } else if k > g {
                        lemma_heading_lt_transitive(h, opt_text(before[g as int].title), opt_text(before[k].title));
                        lemma_heading_trichotomy(h, h);
                    }
                }
                assert(items_under(done, h) =~= seq![]);
            }
            let mut items: Vec<T> = Vec::new();
            items.push(item);
            out.insert(g, Group { title: heading, help: None, items });
            proof {
                before.insert_ensures(g as int, out@[g as int]);
                assert forall|k: int| 0 <= k < out@.len() implies (#[trigger] out@[k]).help is None
                    && out@[k].items@ == items_under(next, opt_text(out@[k].title))
                    && out@[k].items@.len() > 0 by {
                    if k != g {
                        let j = if k < g { k } else { k - 1 };
                        assert(out@[k] == before[j]);
                        if j < g {
                            lemma_heading_trichotomy(opt_text(before[j].title), h);
                        } else {
                            lemma_heading_trichotomy(opt_text(before[g as int].title), h);
                            if j > g {
                                lemma_heading_lt_transitive(h, opt_text(before[g as int].title), opt_text(before[j].title));
                            }
                            lemma_heading_trichotomy(h, opt_text(before[j].title));
                        }
                    } else {
                        assert(out@[k].items@ =~= seq![item]);
                    }
                }
                assert forall|a: int, b: int| 0 <= a < b < out@.len() implies
                    heading_lt(opt_text(#[trigger] out@[a].title), opt_text(#[trigger] out@[b].title)) by {
                    if b < g {
                        assert(out@[a] == before[a] && out@[b] == before[b]);
                    } else if b == g {
                        assert(out@[a] == before[a]);
                    } else if a < g {
                        assert(out@[a] == before[a] && out@[b] == before[b - 1]);
                        lemma_heading_trichotomy(opt_text(before[g as int].title), h);
                        lemma_heading_lt_transitive(opt_text(before[a].title), h, opt_text(before[g as int].title));
                        if b - 1 > g {
                            lemma_heading_lt_transitive(opt_text(before[a].title), opt_text(before[g as int].title), opt_text(before[b - 1].title));
                        }
                    } else if a == g {
                        assert(out@[b] == before[b - 1]);
                        lemma_heading_trichotomy(opt_text(before[g as int].title), h);
                        if b - 1 > g {
                            lemma_heading_lt_transitive(h, opt_text(before[g as int].title), opt_text(before[b - 1].title));
                        }
                    } else {
                        assert(out@[a] == before[a - 1] && out@[b] == before[b - 1]);
                    }
                }
                assert forall|i: int| 0 <= i < next.len() implies exists|k: int| 0 <= k < out@.len()
                    && #[trigger] opt_text(out@[k].title) == opt_text(#[trigger] next[i].0) by {
                    if i < n {
                        assert(next[i] == done[i]);
                        let k = choose|k: int| 0 <= k < before.len() && opt_text(before[k].title) == opt_text(done[i].0);
                        if k < g {
                            assert(out@[k] == before[k]);
                        } else {
                            assert(out@[k + 1] == before[k]);
                        }
                    } else {
                        assert(opt_text(out@[g as int].title) == h);
                    }
                }
            }
        }
        n = n + 1;
    }
    proof {
        assert(all.take(n as int) =~= all);
    }
    out
}

/// An argument's row in an options or arguments section.
#[derive(Debug)]
pub struct OptionData {
    /// The name column: the flag spellings, or the positional's name.
    pub name: String,
    /// The value placeholder a flag takes, if any.
    pub value_name: Option<String>,
    /// The help text.
    pub help: String,
    /// The short flag, if any.
    pub short: Option<char>,
    /// The long flag, if any.
    pub long: Option<String>,
    /// The default value, if any.
    pub default: Option<String>,
    /// The values the argument accepts, when it lists them.
    pub possible_values: Vec<String>,
}

/// The names of the rows of the sections, sections in order.
pub open spec fn section_name_list(groups: Seq<Group<OptionData>>) -> Seq<Seq<char>>
    decreases groups.len(),
{
    if groups.len() == 0 {
        seq![]
    } else {
        section_name_list(groups.drop_last()) + groups.last().items@.map_values(|o: OptionData| o.name@)
    }
}

/// A row's label in an options section: its name, then its value
/// placeholder after a space when it takes one.
pub open spec fn option_label(o: OptionData) -> Seq<char> {
    match o.value_name {
        Some(v) => o.name@ + " "@ + v@,
        None => o.name@,
    }
}

/// The labels of the rows of the sections, sections in order.
pub open spec fn option_label_list(groups: Seq<Group<OptionData>>) -> Seq<Seq<char>>
    decreases groups.len(),
{
    if groups.len() == 0 {
        seq![]
    } else {
        option_label_list(groups.drop_last()) + groups.last().items@.map_values(|o: OptionData| option_label(o))
    }
}

/// The names of every row of the sections, in order: what the name column
/// has to fit.
pub fn section_names(groups: &Vec<Group<OptionData>>) -> (names: Vec<&str>)
    ensures
        names@.map_values(|n: &str| n@) == section_name_list(groups@),
{
    let mut names: Vec<&str> = Vec::new();
    let mut i: usize = 0;
    while i < groups.len()
        invariant
            i <= groups@.len(),
            names@.map_values(|n: &str| n@) == section_name_list(groups@.take(i as int)),
        decreases groups@.len() - i,
    {
        let items = &groups[i].items;
        let ghost base = names@.map_values(|n: &str| n@);
        let mut j: usize = 0;
        while j < items.len()
            invariant
                j <= items@.len(),
                names@.map_values(|n: &str| n@) == base + items@.take(j as int).map_values(|o: OptionData| o.name@),
            decreases items@.len() - j,
        {
            let ghost before = names@;
            names.push(items[j].name.as_str());
            proof {
                assert(names@.map_values(|n: &str| n@) =~= before.map_values(|n: &str| n@).push(items@[j as int].name@));
                assert(items@.take(j + 1).map_values(|o: OptionData| o.name@) =~= items@.take(j as int).map_values(
                    |o: OptionData| o.name@,
                ).push(items@[j as int].name@));
            }
            j = j + 1;
        }
        proof {
            assert(items@.take(items@.len() as int) =~= items@);
            assert(groups@.take(i + 1).drop_last() =~= groups@.take(i as int));
        }
        i = i + 1;
    }
    proof {
        assert(groups@.take(groups@.len() as int) =~= groups@);
    }
    names
}

/// The label of one row: its name, and its value placeholder after a space.
fn option_label_of(o: &OptionData) -> (label: String)
    ensures
        label@ == option_label(*o),
{
    match &o.value_name {
        Some(v) => {
            let spaced = concat(o.name.as_str(), " ");
            concat(spaced.as_str(), v.as_str())
        },
        None => o.name.clone(),
    }
}

/// The labels of every row of the options sections, in order: what the
/// options' name column has to fit.
pub fn option_section_names(groups: &Vec<Group<OptionData>>) -> (labels: Vec<String>)
    ensures
        labels@.map_values(|l: String| l@) == option_label_list(groups@),
{
    let mut labels: Vec<String> = Vec::new();
    let mut i: usize = 0;
    while i < groups.len()
        invariant
            i <= groups@.len(),
            labels@.map_values(|l: String| l@) == option_label_list(groups@.take(i as int)),
        decreases groups@.len() - i,
    {
        let items = &groups[i].items;
        let ghost base = labels@.map_values(|l: String| l@);
        let mut j: usize = 0;
        while j < items.len()
            invariant
                j <= items@.len(),
                labels@.map_values(|l: String| l@) == base + items@.take(j as int).map_values(
                    |o: OptionData| option_label(o),
                ),
            decreases items@.len() - j,
        {
            let ghost before = labels@;
            let label = option_label_of(&items[j]);
            labels.push(label);
            proof {
                assert(labels@.map_values(|l: String| l@) =~= before.map_values(|l: String| l@).push(
                    option_label(items@[j as int]),
                ));
                assert(items@.take(j + 1).map_values(|o: OptionData| option_label(o)) =~= items@.take(
                    j as int,
                ).map_values(|o: OptionData| option_label(o)).push(option_label(items@[j as int])));
            }
            j = j + 1;
        }
        proof {
            assert(items@.take(items@.len() as int) =~= items@);
            assert(groups@.take(i + 1).drop_last() =~= groups@.take(i as int));
        }
        i = i + 1;
    }
    proof {
        assert(groups@.take(groups@.len() as int) =~= groups@);
    }
    labels
}

/// Whether the only subcommand is the word `help`: then, with no topics to
/// list, the help page shows no commands section.
pub fn only_the_help_word(subs: &Vec<CommandSummary>) -> (b: bool)
    ensures
        b == (subs@.len() == 1 && subs@[0].name@ == "help"@),
{
    if subs.len() != 1 {
        return false;
    }
    let name = chars_of(subs[0].name.as_str());
    let word = chars_of("help");
    proof {
        reveal_strlit("help");
    }
    chars_equal(&name, &word)
}

/// What `help <keywords>` shows.
#[derive(Debug, Clone, PartialEq, Eq)]
pub enum HelpPage {
    /// The list of help topics (`help topics`).
    TopicsList,
    /// The command's help as a structured document.
    Document,
    /// The command's help page.
    CommandPage,
    /// The topic's page.
    Topic,
    /// Nothing: the word is neither a command nor a topic; the error's text.
    Unrecognized(String),
}

/// The text for a help word that names neither a command nor a topic.
pub open spec fn unrecognized_help_text(word: Seq<char>) -> Seq<char> {
    "The subcommand or topic '"@ + word + "' wasn't recognized"@
}

/// What `help` shows for keywords whose first is `first`: `topics` lists
/// the topics; keywords that name a command path show its help (a document
/// under `json`, `yaml` and `csv`, the page otherwise); a first keyword that
/// names a topic shows it; anything else is unrecognized.
pub fn help_request_page(first: &str, names_a_command: bool, format: Representation, names_a_topic: bool)
    -> (page: HelpPage)
    ensures
        first@ == "topics"@ ==> page == HelpPage::TopicsList,
        first@ != "topics"@ && names_a_command ==> page == (if format == Representation::Json
            || format == Representation::Yaml || format == Representation::Csv {
            HelpPage::Document
        } else {
            HelpPage::CommandPage
        }),
        first@ != "topics"@ && !names_a_command && names_a_topic ==> page == HelpPage::Topic,
        first@ != "topics"@ && !names_a_command && !names_a_topic ==> (page matches HelpPage::Unrecognized(m)
            && m@ == unrecognized_help_text(first@)),
{
    if chars_equal(&chars_of(first), &chars_of("topics")) {
        return HelpPage::TopicsList;
    }
    if names_a_command {
        if crate::cli::representation::help_is_a_document(format) {
            return HelpPage::Document;
        }
        return HelpPage::CommandPage;
    }
    if names_a_topic {
        return HelpPage::Topic;
    }
    let a = concat("The subcommand or topic '", first);
    HelpPage::Unrecognized(concat(a.as_str(), "' wasn't recognized"))
}

/// A name a group's entries claim, and that was not claimed before them,
/// has its subcommand's row among those entries' rows.
proof fn lemma_entry_rows_list_claims(subs: Seq<CommandSummary>, claimed: Set<Seq<char>>, entries: Seq<Option<String>>, n: Seq<char>)
    requires
        entry_rows(subs, claimed, entries).1.contains(n),
        !claimed.contains(n),
    ensures
        entry_rows(subs, claimed, entries).0.contains(summary_row(command_named(subs, n))),
    decreases entries.len(),
{
    if entries.len() > 0 {
        let (rows, c) = entry_rows(subs, claimed, entries.drop_last());
        if c.contains(n) {
            lemma_entry_rows_list_claims(subs, claimed, entries.drop_last(), n);
            let k = choose|k: int| 0 <= k < rows.len() && rows[k] == summary_row(command_named(subs, n));
            match entries.last() {
                None => {
                    assert(rows.push(separator_row())[k] == rows[k]);
                },
                Some(name) => if has_command(subs, name@) && !c.contains(name@) {
                    assert(rows.push(summary_row(command_named(subs, name@)))[k] == rows[k]);
                } else {
                },
            }
        } else {
            match entries.last() {
                None => {},
                Some(name) => {
                    assert(name@ == n);
                    let out = rows.push(summary_row(command_named(subs, name@)));
                    assert(out[rows.len() as int] == summary_row(command_named(subs, n)));
                },
            }
        }
    }
}

/// Every name the groups claim has its subcommand's row in one of their sections.
proof fn lemma_grouped_sections_list_claims(subs: Seq<CommandSummary>, groups: Seq<CommandGroup>, n: Seq<char>)
    requires
        grouped_sections(subs, groups).1.contains(n),
    ensures
        exists|g: int| 0 <= g < grouped_sections(subs, groups).0.len()
            && (#[trigger] grouped_sections(subs, groups).0[g]).2.contains(summary_row(command_named(subs, n))),
    decreases groups.len(),
{
    if groups.len() > 0 {
        let (secs, claimed) = grouped_sections(subs, groups.drop_last());
        let g = groups.last();
        let (rows, c) = entry_rows(subs, claimed, g.commands@);
        let now = grouped_sections(subs, groups).0;
        if claimed.contains(n) {
            lemma_grouped_sections_list_claims(subs, groups.drop_last(), n);
            let k = choose|k: int| 0 <= k < secs.len() && secs[k].2.contains(summary_row(command_named(subs, n)));
            if rows.len() > 0 {
                assert(now[k] == secs[k]);
            }
        } else {
            lemma_entry_rows_list_claims(subs, claimed, g.commands@, n);
            assert(rows.len() > 0);
            assert(now[secs.len() as int].2 == rows);
        }
    }
}

/// The subcommands left over are exactly those whose names are unclaimed.
proof fn lemma_unclaimed_holds(subs: Seq<CommandSummary>, claimed: Set<Seq<char>>, i: int)
    requires
        0 <= i < subs.len(),
        !claimed.contains(subs[i].name@),
    ensures
        unclaimed(subs, claimed).contains(subs[i]),
    decreases subs.len(),
{
    let rest = unclaimed(subs.drop_last(), claimed);
    if i == subs.len() - 1 {
        assert(rest.push(subs.last())[rest.len() as int] == subs[i]);
    } else {
        assert(subs.drop_last()[i] == subs[i]);
        lemma_unclaimed_holds(subs.drop_last(), claimed, i);
        let k = choose|k: int| 0 <= k < rest.len() && rest[k] == subs[i];
        if !claimed.contains(subs.last().name@) {
            assert(rest.push(subs.last())[k] == subs[i]);
        }
    }
}

/// Every subcommand is listed on the grouped help page: in a section of a
/// group that names it, or else among the subcommands left for the "Other"
/// section.
pub proof fn law_every_subcommand_is_listed(subs: Seq<CommandSummary>, groups: Seq<CommandGroup>, i: int)
    requires
        distinct_names(subs),
        0 <= i < subs.len(),
    ensures
        (exists|g: int| 0 <= g < grouped_sections(subs, groups).0.len()
            && (#[trigger] grouped_sections(subs, groups).0[g]).2.contains(summary_row(subs[i])))
        || unclaimed(subs, grouped_sections(subs, groups).1).contains(subs[i]),
{
    let claimed = grouped_sections(subs, groups).1;
    if claimed.contains(subs[i].name@) {
        lemma_grouped_sections_list_claims(subs, groups, subs[i].name@);
        let k = choose|k: int| 0 <= k < subs.len() && subs[k].name@ == subs[i].name@;
        if k != i {
            if k < i {
                assert(subs[k].name@ != subs[i].name@);
            } else {
                assert(subs[i].name@ != subs[k].name@);
            }
        }
        assert(command_named(subs, subs[i].name@) == subs[i]);
    } else {
        lemma_unclaimed_holds(subs, claimed, i);
    }
}

/// The names of the subcommands that help shows (those not hidden), in
/// the order they were added.
pub open spec fn shown_names(subs: Seq<HelpNode>) -> Seq<String>
    decreases subs.len(),
{
    if subs.len() == 0 {
        seq![]
    } else if subs.last().hidden {
        shown_names(subs.drop_last())
    } else {
        shown_names(subs.drop_last()).push(subs.last().name)
    }
}

/// The names of the subcommands that help shows.
fn visible_subcommand_names(subs: &Vec<HelpNode>) -> (names: Vec<String>)
    ensures
        names@ == shown_names(subs@),
{
    let mut names: Vec<String> = Vec::new();
    let mut i: usize = 0;
    while i < subs.len()
        invariant
            i <= subs@.len(),
            names@ == shown_names(subs@.take(i as int)),
        decreases subs@.len() - i,
    {
        proof {
            assert(subs@.take(i + 1).drop_last() =~= subs@.take(i as int));
        }
        if !subs[i].hidden {
            names.push(subs[i].name.clone());
        }
        i = i + 1;
    }
    proof {
        assert(subs@.take(subs@.len() as int) =~= subs@);
    }
    names
}

/// Check command groups against the subcommands of `cmd` that help shows:
/// a name a group lists that is no such subcommand is reported. Hidden
/// subcommands count as absent; subcommands no group lists are fine.
pub fn validate_command_groups(cmd: &HelpNode, groups: &[CommandGroup]) -> (r: Result<(), SetupError>)
    ensures
        group_check_outcome(shown_names(cmd.subs@), groups@, r),
{
    let known = visible_subcommand_names(&cmd.subs);
    check_command_groups(&known, groups)
}

} // verus!
