//! How an argument is named on the help page and in the help document: its
//! flag spellings, its value placeholder, its default, and the values it
//! accepts.

use vstd::prelude::*;

use crate::cli::help::{opt_text, HelpArg, OptionData};
use crate::text::{chars_of, concat, join, join_seq, string_of};

verus! {

broadcast use vstd::string::group_string_axioms;

/// What help reads of an argument.
#[derive(Debug, Clone)]
pub struct ArgFacts {
    /// The argument's id.
    pub id: String,
    /// Its short flag, if any.
    pub short: Option<char>,
    /// Its long flag, if any.
    pub long: Option<String>,
    /// The value names it declares, if it declares any.
    pub value_names: Option<Vec<String>>,
    /// Whether it takes values.
    pub takes_values: bool,
    /// Its default values, as text.
    pub default_values: Vec<String>,
    /// The values it accepts, each with whether it is hidden.
    pub possible_values: Vec<(String, bool)>,
    /// Its help text, if any.
    pub help: Option<String>,
    /// Whether it must be given.
    pub required: bool,
}

/// Strings as their texts.
pub open spec fn texts(v: Seq<String>) -> Seq<Seq<char>> {
    v.map_values(|s: String| s@)
}

/// An optional string's text, or the empty text.
pub open spec fn text_or_empty(o: Option<String>) -> Seq<char> {
    match o {
        Some(s) => s@,
        None => seq![],
    }
}

/// The name column of a flag: `-s`, `--long`, both as `-s, --long`, or the
/// argument's id when it has neither.
pub open spec fn flag_name_text(a: ArgFacts) -> Seq<char> {
    match (a.short, a.long) {
        (Some(s), Some(l)) => seq!['-', s] + ", --"@ + l@,
        (Some(s), None) => seq!['-', s],
        (None, Some(l)) => "--"@ + l@,
        (None, None) => a.id@,
    }
}

/// The strings joined with `sep`.
fn joined(parts: &Vec<String>, sep: &str) -> (s: String)
    ensures
        s@ == join_seq(texts(parts@), sep@),
{
    let mut chars: Vec<Vec<char>> = Vec::new();
    let mut i: usize = 0;
    while i < parts.len()
        invariant
            i <= parts@.len(),
            chars@.map_values(|p: Vec<char>| p@) == texts(parts@).take(i as int),
        decreases parts@.len() - i,
    {
        let ghost before = chars@;
        chars.push(chars_of(parts[i].as_str()));
        proof {
            assert(chars@.map_values(|p: Vec<char>| p@) =~= before.map_values(|p: Vec<char>| p@).push(parts@[i as int]@));
            assert(texts(parts@).take(i + 1) =~= texts(parts@).take(i as int).push(parts@[i as int]@));
        }
        i = i + 1;
    }
    proof {
        assert(texts(parts@).take(parts@.len() as int) =~= texts(parts@));
    }
    string_of(&join(&chars, &chars_of(sep)))
}

/// `-` followed by the character.
fn short_flag(c: char) -> (s: String)
    ensures
        s@ == seq!['-', c],
{
    let mut v: Vec<char> = Vec::new();
    v.push('-');
    v.push(c);
    proof {
        assert(v@ =~= seq!['-', c]);
    }
    string_of(&v)
}

/// The name column of a flag.
pub fn flag_name(a: &ArgFacts) -> (name: String)
    ensures
        name@ == flag_name_text(*a),
{
    proof {
        reveal_strlit("--");
        reveal_strlit(", --");
    }
    match (&a.short, &a.long) {
        (Some(s), Some(l)) => {
            let head = short_flag(*s);
            let with = concat(head.as_str(), ", --");
            concat(with.as_str(), l.as_str())
        },
        (Some(s), None) => short_flag(*s),
        (None, Some(l)) => concat("--", l.as_str()),
        (None, None) => a.id.clone(),
    }
}

/// The name column of a positional argument: its first declared value name,
/// or its id.
pub open spec fn positional_name_text(a: ArgFacts) -> Seq<char> {
    match a.value_names {
        Some(names) => if names@.len() > 0 { names@[0]@ } else { a.id@ },
        None => a.id@,
    }
}

/// The name column of a positional argument.
pub fn positional_name(a: &ArgFacts) -> (name: String)
    ensures
        name@ == positional_name_text(*a),
{
    match &a.value_names {
        Some(names) => {
            if names.len() > 0 {
                names[0].clone()
            } else {
                a.id.clone()
            }
        },
        None => a.id.clone(),
    }
}

/// The names a value-taking argument's placeholder shows: its declared
/// value names, or its id.
pub open spec fn placeholder_names(a: ArgFacts) -> Seq<Seq<char>> {
    match a.value_names {
        Some(names) => texts(names@),
        None => seq![a.id@],
    }
}

/// Each name in angle brackets.
pub open spec fn bracketed(names: Seq<Seq<char>>) -> Seq<Seq<char>> {
    names.map_values(|n: Seq<char>| "<"@ + n + ">"@)
}

/// The names an argument's value is shown by, as strings.
fn placeholder_strings(a: &ArgFacts) -> (names: Vec<String>)
    ensures
        texts(names@) == placeholder_names(*a),
{
    match &a.value_names {
        Some(names) => {
            let mut out: Vec<String> = Vec::new();
            let mut i: usize = 0;
            while i < names.len()
                invariant
                    i <= names@.len(),
                    texts(out@) == texts(names@).take(i as int),
                decreases names@.len() - i,
            {
                let ghost before = out@;
                out.push(names[i].clone());
                proof {
                    assert(texts(out@) =~= texts(before).push(names@[i as int]@));
                    assert(texts(names@).take(i + 1) =~= texts(names@).take(i as int).push(names@[i as int]@));
                }
                i = i + 1;
            }
            proof {
                assert(texts(names@).take(names@.len() as int) =~= texts(names@));
            }
            out
        },
        None => {
            let mut out: Vec<String> = Vec::new();
            out.push(a.id.clone());
            proof {
                assert(texts(out@) =~= seq![a.id@]);
            }
            out
        },
    }
}

/// The value placeholder of a flag that takes values: each value name in
/// angle brackets, separated by spaces. None for a flag that takes none.
pub open spec fn flag_value_text(a: ArgFacts) -> Option<Seq<char>> {
    if a.takes_values {
        Some(join_seq(bracketed(placeholder_names(a)), " "@))
    } else {
        None
    }
}

/// The value placeholder of a flag.
pub fn flag_value_name(a: &ArgFacts) -> (v: Option<String>)
    ensures
        !a.takes_values ==> v is None,
        a.takes_values ==> (v matches Some(s) && s@ == join_seq(bracketed(placeholder_names(*a)), " "@)),
        opt_text(v) == flag_value_text(*a),
{
    if !a.takes_values {
        return None;
    }
    let names = placeholder_strings(a);
    let mut wrapped: Vec<String> = Vec::new();
    let mut i: usize = 0;
    while i < names.len()
        invariant
            i <= names@.len(),
            texts(wrapped@) == bracketed(texts(names@)).take(i as int),
        decreases names@.len() - i,
    {
        let left = concat("<", names[i].as_str());
        let ghost before = wrapped@;
        wrapped.push(concat(left.as_str(), ">"));
        proof {
            assert(texts(wrapped@) =~= texts(before).push("<"@ + names@[i as int]@ + ">"@));
            assert(bracketed(texts(names@)).take(i + 1) =~= bracketed(texts(names@)).take(i as int).push(
                "<"@ + names@[i as int]@ + ">"@,
            ));
        }
        i = i + 1;
    }
    proof {
        assert(bracketed(texts(names@)).take(names@.len() as int) =~= bracketed(texts(names@)));
    }
    Some(joined(&wrapped, " "))
}

/// The default an argument shows: its default values joined with `, `,
/// when it takes values and has any.
pub fn default_value(a: &ArgFacts) -> (d: Option<String>)
    ensures
        (!a.takes_values || a.default_values@.len() == 0) ==> d is None,
        (a.takes_values && a.default_values@.len() > 0) ==> (d matches Some(s)
            && s@ == join_seq(texts(a.default_values@), ", "@)),
{
    if !a.takes_values || a.default_values.len() == 0 {
        return None;
    }
    Some(joined(&a.default_values, ", "))
}

/// The names of the accepted values that are not hidden, in order.
pub open spec fn shown_values(values: Seq<(String, bool)>) -> Seq<Seq<char>>
    decreases values.len(),
{
    if values.len() == 0 {
        seq![]
    } else if values.last().1 {
        shown_values(values.drop_last())
    } else {
        shown_values(values.drop_last()).push(values.last().0@)
    }
}

/// The values an argument accepts that help shows: none when it takes no
/// values; otherwise those that are not hidden, in order.
pub fn possible_values(a: &ArgFacts) -> (values: Vec<String>)
    ensures
        !a.takes_values ==> values@.len() == 0,
        a.takes_values ==> texts(values@) == shown_values(a.possible_values@),
{
    let mut values: Vec<String> = Vec::new();
    if !a.takes_values {
        return values;
    }
    let mut i: usize = 0;
    while i < a.possible_values.len()
        invariant
            i <= a.possible_values@.len(),
            texts(values@) == shown_values(a.possible_values@.take(i as int)),
        decreases a.possible_values@.len() - i,
    {
        proof {
            assert(a.possible_values@.take(i + 1).drop_last() =~= a.possible_values@.take(i as int));
        }
        let (name, hidden) = &a.possible_values[i];
        if !*hidden {
            let ghost before = values@;
            values.push(name.clone());
            proof {
                assert(texts(values@) =~= texts(before).push(name@));
            }
        }
        i = i + 1;
    }
    proof {
        assert(a.possible_values@.take(a.possible_values@.len() as int) =~= a.possible_values@);
    }
    values
}

/// A copy of an optional string.
fn copy_opt(o: &Option<String>) -> (r: Option<String>)
    ensures
        r == *o,
{
    match o {
        Some(s) => Some(s.clone()),
        None => None,
    }
}

/// The default an argument shows, as text.
pub open spec fn default_text(a: ArgFacts) -> Option<Seq<char>> {
    if a.takes_values && a.default_values@.len() > 0 {
        Some(join_seq(texts(a.default_values@), ", "@))
    } else {
        None
    }
}

/// The accepted values an argument shows, as texts.
pub open spec fn listed_values(a: ArgFacts) -> Seq<Seq<char>> {
    if a.takes_values {
        shown_values(a.possible_values@)
    } else {
        seq![]
    }
}

/// `row` is the row of argument `a` under the name `name` with the value
/// placeholder `value_name`.
pub open spec fn is_option_row(row: OptionData, name: Seq<char>, value_name: Option<Seq<char>>, a: ArgFacts) -> bool {
    &&& row.name@ == name
    &&& opt_text(row.value_name) == value_name
    &&& row.help@ == text_or_empty(a.help)
    &&& row.short == a.short
    &&& row.long == a.long
    &&& opt_text(row.default) == default_text(a)
    &&& texts(row.possible_values@) == listed_values(a)
}

/// An argument's row in an options or arguments section, under `name` and
/// with the value placeholder `value_name`.
pub fn option_row(name: String, value_name: Option<String>, a: &ArgFacts) -> (row: OptionData)
    ensures
        row.name == name,
        row.value_name == value_name,
        row.help@ == text_or_empty(a.help),
        row.short == a.short,
        row.long == a.long,
        (!a.takes_values || a.default_values@.len() == 0) ==> row.default is None,
        (a.takes_values && a.default_values@.len() > 0) ==> (row.default matches Some(s)
            && s@ == join_seq(texts(a.default_values@), ", "@)),
        !a.takes_values ==> row.possible_values@.len() == 0,
        a.takes_values ==> texts(row.possible_values@) == shown_values(a.possible_values@),
        is_option_row(row, name@, opt_text(value_name), *a),
{
    let help = match &a.help {
        Some(h) => h.clone(),
        None => String::new(),
    };
    let values = possible_values(a);
    proof {
        if !a.takes_values {
            assert(texts(values@) =~= Seq::<Seq<char>>::empty());
        }
    }
    OptionData {
        name,
        value_name,
        help,
        short: a.short,
        long: copy_opt(&a.long),
        default: default_value(a),
        possible_values: values,
    }
}

/// The value placeholder a help document gives an argument: its declared
/// value names joined with spaces, or its id, when it takes values.
pub open spec fn document_value_name(a: ArgFacts) -> Option<Seq<char>> {
    if !a.takes_values {
        None
    } else {
        match a.value_names {
            Some(names) => Some(join_seq(texts(names@), " "@)),
            None => Some(a.id@),
        }
    }
}

/// `h` is the help document's record of argument `a`.
pub open spec fn is_help_arg(h: HelpArg, a: ArgFacts) -> bool {
    &&& h.name@ == a.id@
    &&& match a.short {
        Some(c) => h.short matches Some(s) && s@ == seq!['-', c],
        None => h.short is None,
    }
    &&& match a.long {
        Some(n) => h.long matches Some(l) && l@ == "--"@ + n@,
        None => h.long is None,
    }
    &&& opt_text(h.value_name) == document_value_name(a)
    &&& h.required == a.required
    &&& h.help@ == text_or_empty(a.help)
    &&& opt_text(h.default) == default_text(a)
    &&& texts(h.possible_values@) == listed_values(a)
}

/// The help document's record of an argument: its id, `-s` and `--long`
/// spellings, value placeholder, whether it is required, help, default and
/// accepted values.
pub fn help_arg(a: &ArgFacts) -> (h: HelpArg)
    ensures
        is_help_arg(h, *a),
{
    let value_name = if a.takes_values {
        match &a.value_names {
            Some(names) => Some(joined(names, " ")),
            None => Some(a.id.clone()),
        }
    } else {
        None
    };
    let short = match a.short {
        Some(c) => Some(short_flag(c)),
        None => None,
    };
    let long = match &a.long {
        Some(l) => Some(concat("--", l.as_str())),
        None => None,
    };
    let help = match &a.help {
        Some(h) => h.clone(),
        None => String::new(),
    };
    let values = possible_values(a);
    proof {
        reveal_strlit("--");
        if !a.takes_values {
            assert(texts(values@) =~= Seq::<Seq<char>>::empty());
        }
    }
    HelpArg {
        name: a.id.clone(),
        short,
        long,
        value_name,
        required: a.required,
        help,
        default: default_value(a),
        possible_values: values,
    }
}

} // verus!
