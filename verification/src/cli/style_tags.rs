//! Checking the style tags of an inline template before it is used: tags
//! whose markup is malformed, and tags the resolved theme does not define.

use vstd::prelude::*;

use crate::cli::handler::{RunError, RunErrorKind};
use crate::setup::SetupError;
use crate::text::{decimal, decimal_string, 
    chars_of, concat, join, join_seq, lex_less, lex_lt, lemma_lex_lt_transitive, lemma_lex_lt_trichotomy, string_of, trim,
    trim_seq,
};

verus! {

broadcast use vstd::string::group_string_axioms;

/// One problem the style-tag parser found in a template.
#[derive(Debug, Clone)]
pub struct TagProblem {
    /// The tag's name.
    pub tag: String,
    /// Whether the tag is unbalanced or closes without opening.
    pub malformed: bool,
    /// Whether the resolved theme defines a style of this name.
    pub defined: bool,
}

/// Why an inline template's style tags were refused.
#[derive(Debug, Clone, PartialEq, Eq)]
pub enum TemplateTagError {
    /// Some tags' markup is malformed; the message names them.
    Malformed(String),
    /// Some tags name no style of the theme; the message names them.
    Undefined(String),
}

/// The texts of `names` stand in strictly increasing string order.
pub open spec fn strictly_sorted(names: Seq<Seq<char>>) -> bool {
    forall|a: int, b: int| 0 <= a < b < names.len() ==> lex_lt(#[trigger] names[a], #[trigger] names[b])
}

/// `names` holds each of the texts of `tags`, and only those.
pub open spec fn names_of(names: Seq<Seq<char>>, tags: Seq<String>) -> bool {
    &&& forall|i: int| 0 <= i < tags.len() ==> names.contains(#[trigger] tags[i]@)
    &&& forall|j: int| 0 <= j < names.len() ==> exists|i: int| 0 <= i < tags.len() && tags[i]@ == #[trigger] names[j]
}

/// Strings as their texts.
pub open spec fn tag_texts(v: Seq<String>) -> Seq<Seq<char>> {
    v.map_values(|s: String| s@)
}

/// Insert `x` into sorted, distinct `names` unless it is there.
fn insert_unique(names: &mut Vec<String>, x: String)
    requires
        strictly_sorted(tag_texts(old(names)@)),
    ensures
        strictly_sorted(tag_texts(final(names)@)),
        forall|t: Seq<char>| tag_texts(final(names)@).contains(t) <==> (tag_texts(old(names)@).contains(t) || t == x@),
{
    let ghost before = tag_texts(names@);
    let xs = chars_of(x.as_str());
    let mut p: usize = 0;
    while p < names.len() && lex_less(&chars_of(names[p].as_str()), &xs)
        invariant
            p <= names@.len(),
            xs@ == x@,
            forall|a: int| 0 <= a < p ==> lex_lt(#[trigger] tag_texts(names@)[a], x@),
        decreases names@.len() - p,
    {
        p = p + 1;
    }
    if p < names.len() && names[p] == x {
        proof {
            assert forall|t: Seq<char>| tag_texts(names@).contains(t) <==> (before.contains(t) || t == x@) by {
                if t == x@ {
                    assert(tag_texts(names@)[p as int] == x@);
                }
            }
        }
        return;
    }
    proof {
        if p < names@.len() {
            lemma_lex_lt_trichotomy(tag_texts(names@)[p as int], x@);
        }
    }
    let ghost old_names = names@;
    names.insert(p, x);
    proof {
        old_names.insert_ensures(p as int, x);
        let now = tag_texts(names@);
        assert forall|a: int, b: int| 0 <= a < b < now.len() implies lex_lt(#[trigger] now[a], #[trigger] now[b]) by {
            if b < p {
                assert(now[a] == before[a] && now[b] == before[b]);
            } else if b == p {
                assert(now[a] == before[a]);
            } else if a < p {
                assert(now[a] == before[a] && now[b] == before[b - 1]);
                assert(lex_lt(x@, before[p as int]));
                if b - 1 > p {
                    lemma_lex_lt_transitive(x@, before[p as int], before[b - 1]);
                }
                lemma_lex_lt_transitive(before[a], x@, before[b - 1]);
            } else if a == p {
                assert(now[b] == before[b - 1]);
                if b - 1 > p {
                    lemma_lex_lt_transitive(x@, before[p as int], before[b - 1]);
                }
            } else {
                assert(now[a] == before[a - 1] && now[b] == before[b - 1]);
            }
        }
        assert forall|t: Seq<char>| now.contains(t) <==> (before.contains(t) || t == x@) by {
            if now.contains(t) {
                let k = choose|k: int| 0 <= k < now.len() && now[k] == t;
                if k < p {
                    assert(before[k] == t);
                } else if k > p {
                    assert(before[k - 1] == t);
                }
            }
            if before.contains(t) {
                let k = choose|k: int| 0 <= k < before.len() && before[k] == t;
                if k < p {
                    assert(now[k] == t);
                } else {
                    assert(now[k + 1] == t);
                }
            }
            if t == x@ {
                assert(now[p as int] == t);
            }
        }
    }
}

/// The names among `tags`, each once, in string order.
pub fn unique_tag_names(tags: &Vec<String>) -> (names: Vec<String>)
    ensures
        strictly_sorted(tag_texts(names@)),
        names_of(tag_texts(names@), tags@),
{
    let mut names: Vec<String> = Vec::new();
    let mut i: usize = 0;
    while i < tags.len()
        invariant
            i <= tags@.len(),
            strictly_sorted(tag_texts(names@)),
            names_of(tag_texts(names@), tags@.take(i as int)),
        decreases tags@.len() - i,
    {
        let ghost before = tag_texts(names@);
        let x = tags[i].clone();
        insert_unique(&mut names, x);
        proof {
            let now = tag_texts(names@);
            let done = tags@.take(i + 1);
            assert(x@ == tags@[i as int]@);
            assert(now.contains(x@));
            assert(done[i as int] == tags@[i as int]);
            assert forall|k: int| 0 <= k < done.len() implies now.contains(#[trigger] done[k]@) by {
                if k < i {
                    assert(done[k] == tags@.take(i as int)[k]);
                    assert(before.contains(done[k]@));
                }
            }
            assert forall|j: int| 0 <= j < now.len() implies exists|k: int| 0 <= k < done.len()
                && done[k]@ == #[trigger] now[j] by {
                if now[j] == tags@[i as int]@ {
                    assert(done[i as int] == tags@[i as int]);
                } else {
                    assert(before.contains(now[j]));
                    let m = choose|m: int| 0 <= m < before.len() && before[m] == now[j];
                    assert(before[m] == now[j]);
                    let k = choose|k: int| 0 <= k < tags@.take(i as int).len() && tags@.take(i as int)[k]@ == before[m];
                    assert(done[k] == tags@.take(i as int)[k]);
                }
            }
        }
        i = i + 1;
    }
    proof {
        assert(tags@.take(tags@.len() as int) =~= tags@);
    }
    names
}

/// The tags of the malformed problems, in order.
pub open spec fn malformed_tags(problems: Seq<TagProblem>) -> Seq<String>
    decreases problems.len(),
{
    if problems.len() == 0 {
        seq![]
    } else if problems.last().malformed {
        malformed_tags(problems.drop_last()).push(problems.last().tag)
    } else {
        malformed_tags(problems.drop_last())
    }
}

/// The tags of the problems whose style the theme does not define, in order.
pub open spec fn undefined_tags(problems: Seq<TagProblem>) -> Seq<String>
    decreases problems.len(),
{
    if problems.len() == 0 {
        seq![]
    } else if !problems.last().defined {
        undefined_tags(problems.drop_last()).push(problems.last().tag)
    } else {
        undefined_tags(problems.drop_last())
    }
}

/// The text for malformed markup in template `name`, naming the tags.
pub open spec fn malformed_text(name: Seq<char>, tags: Seq<Seq<char>>) -> Seq<char> {
    "template `"@ + name + "` contains malformed style markup involving tag(s): "@ + join_seq(tags, ", "@)
}

/// The text for tags template `name` emits that the theme does not define.
pub open spec fn undefined_text(name: Seq<char>, tags: Seq<Seq<char>>) -> Seq<char> {
    "template `"@ + name + "` emits style tag(s) not defined by the resolved theme: "@ + join_seq(tags, ", "@)
}

/// The tags of the problems the filter keeps, in order.
fn tags_where(problems: &Vec<TagProblem>, malformed: bool) -> (tags: Vec<String>)
    ensures
        malformed ==> tags@ == malformed_tags(problems@),
        !malformed ==> tags@ == undefined_tags(problems@),
{
    let mut tags: Vec<String> = Vec::new();
    let mut i: usize = 0;
    while i < problems.len()
        invariant
            i <= problems@.len(),
            malformed ==> tags@ == malformed_tags(problems@.take(i as int)),
            !malformed ==> tags@ == undefined_tags(problems@.take(i as int)),
        decreases problems@.len() - i,
    {
        proof {
            assert(problems@.take(i + 1).drop_last() =~= problems@.take(i as int));
        }
        let keep = if malformed { problems[i].malformed } else { !problems[i].defined };
        if keep {
            tags.push(problems[i].tag.clone());
        }
        i = i + 1;
    }
    proof {
        assert(problems@.take(problems@.len() as int) =~= problems@);
    }
    tags
}

/// The names, joined with `, `.
fn joined(names: &Vec<String>) -> (s: String)
    ensures
        s@ == join_seq(tag_texts(names@), ", "@),
{
    let mut parts: Vec<Vec<char>> = Vec::new();
    let mut i: usize = 0;
    while i < names.len()
        invariant
            i <= names@.len(),
            parts@.map_values(|p: Vec<char>| p@) == tag_texts(names@).take(i as int),
        decreases names@.len() - i,
    {
        let ghost before = parts@;
        parts.push(chars_of(names[i].as_str()));
        proof {
            assert(parts@.map_values(|p: Vec<char>| p@) =~= before.map_values(|p: Vec<char>| p@).push(names@[i as int]@));
            assert(tag_texts(names@).take(i + 1) =~= tag_texts(names@).take(i as int).push(names@[i as int]@));
        }
        i = i + 1;
    }
    proof {
        assert(tag_texts(names@).take(names@.len() as int) =~= tag_texts(names@));
    }
    string_of(&join(&parts, &chars_of(", ")))
}

/// Check an inline template's style tags against the problems the parser
/// found: malformed markup is refused first, naming its tags; then tags
/// the theme does not define, naming them. Each message lists the tags
/// once each, in string order.
pub fn validate_inline_template_tags(name: &str, problems: &Vec<TagProblem>) -> (r: Result<(), TemplateTagError>)
    ensures
        malformed_tags(problems@).len() > 0 ==> exists|names: Seq<Seq<char>>| strictly_sorted(names)
            && names_of(names, malformed_tags(problems@))
            && (r matches Err(TemplateTagError::Malformed(m)) && m@ == malformed_text(name@, names)),
        malformed_tags(problems@).len() == 0 && undefined_tags(problems@).len() > 0 ==> exists|names: Seq<Seq<char>>|
            strictly_sorted(names) && names_of(names, undefined_tags(problems@))
            && (r matches Err(TemplateTagError::Undefined(m)) && m@ == undefined_text(name@, names)),
        malformed_tags(problems@).len() == 0 && undefined_tags(problems@).len() == 0 ==> r is Ok,
{
    let malformed_list = tags_where(problems, true);
    let malformed = unique_tag_names(&malformed_list);
    proof {
        if malformed_list@.len() > 0 {
            assert(tag_texts(malformed@).contains(malformed_list@[0]@));
        }
    }
    if malformed.len() > 0 {
        let a = concat("template `", name);
        let b = concat(a.as_str(), "` contains malformed style markup involving tag(s): ");
        let text = concat(b.as_str(), joined(&malformed).as_str());
        return Err(TemplateTagError::Malformed(text));
    }
    let missing_list = tags_where(problems, false);
    let missing = unique_tag_names(&missing_list);
    proof {
        if missing_list@.len() > 0 {
            assert(tag_texts(missing@).contains(missing_list@[0]@));
        }
    }
    if missing.len() > 0 {
        let a = concat("template `", name);
        let b = concat(a.as_str(), "` emits style tag(s) not defined by the resolved theme: ");
        let text = concat(b.as_str(), joined(&missing).as_str());
        return Err(TemplateTagError::Undefined(text));
    }
    Ok(())
}


/// The text for malformed markup in framework template `name`.
pub open spec fn framework_malformed_text(name: Seq<char>, tags: Seq<Seq<char>>) -> Seq<char> {
    "framework template `"@ + name + "` contains malformed style markup involving tag(s): "@ + join_seq(tags, ", "@)
        + "; fix the template source or disable framework templates with .include_framework_templates(false) if this app does not use them"@
}

/// The text for tags framework template `name` emits that the theme does not define.
pub open spec fn framework_undefined_text(name: Seq<char>, tags: Seq<Seq<char>>) -> Seq<char> {
    "framework template `"@ + name + "` emits style tag(s) not defined by the resolved theme: "@ + join_seq(tags, ", "@)
        + "; enable framework styles with .include_framework_styles(true), define the tag with .theme(...) or .styles(...), or disable framework templates with .include_framework_templates(false)"@
}

/// Check a framework template's style tags against the problems the parser
/// found: malformed markup first, then tags the theme does not define,
/// each a template setup error naming the tags once each in string order.
pub fn validate_framework_template_content(name: &str, problems: &Vec<TagProblem>) -> (r: Result<(), SetupError>)
    ensures
        malformed_tags(problems@).len() > 0 ==> exists|names: Seq<Seq<char>>| strictly_sorted(names)
            && names_of(names, malformed_tags(problems@))
            && (r matches Err(SetupError::Template(m)) && m@ == framework_malformed_text(name@, names)),
        malformed_tags(problems@).len() == 0 && undefined_tags(problems@).len() > 0 ==> exists|names: Seq<Seq<char>>|
            strictly_sorted(names) && names_of(names, undefined_tags(problems@))
            && (r matches Err(SetupError::Template(m)) && m@ == framework_undefined_text(name@, names)),
        malformed_tags(problems@).len() == 0 && undefined_tags(problems@).len() == 0 ==> r is Ok,
{
    let malformed_list = tags_where(problems, true);
    let malformed = unique_tag_names(&malformed_list);
    proof {
        if malformed_list@.len() > 0 {
            assert(tag_texts(malformed@).contains(malformed_list@[0]@));
        }
    }
    if malformed.len() > 0 {
        let a = concat("framework template `", name);
        let b = concat(a.as_str(), "` contains malformed style markup involving tag(s): ");
        let c = concat(b.as_str(), joined(&malformed).as_str());
        return Err(SetupError::Template(concat(c.as_str(), "; fix the template source or disable framework templates with .include_framework_templates(false) if this app does not use them")));
    }
    let missing_list = tags_where(problems, false);
    let missing = unique_tag_names(&missing_list);
    proof {
        if missing_list@.len() > 0 {
            assert(tag_texts(missing@).contains(missing_list@[0]@));
        }
    }
    if missing.len() > 0 {
        let a = concat("framework template `", name);
        let b = concat(a.as_str(), "` emits style tag(s) not defined by the resolved theme: ");
        let c = concat(b.as_str(), joined(&missing).as_str());
        return Err(SetupError::Template(concat(c.as_str(), "; enable framework styles with .include_framework_styles(true), define the tag with .theme(...) or .styles(...), or disable framework templates with .include_framework_templates(false)")));
    }
    Ok(())
}

/// The environment variable whose truthy value turns strict style tags on.
pub const STRICT_STYLE_TAGS_ENV: &'static str = "STANDOUT_STRICT_STYLE_TAGS";

/// `c` lowercased if it is an ASCII capital.
pub open spec fn ascii_lowercase(c: char) -> char {
    if 'A' <= c && c <= 'Z' {
        ((c as u32) + 32) as char
    } else {
        c
    }
}

/// A value turns strict style tags on: trimmed and ASCII-lowercased, it is
/// `1`, `true`, `yes` or `on`.
pub open spec fn truthy(value: Seq<char>) -> bool {
    let v = trim_seq(value).map_values(|c: char| ascii_lowercase(c));
    v == "1"@ || v == "true"@ || v == "yes"@ || v == "on"@
}

/// Whether the strict-style-tags variable's value turns strict mode on. An
/// unset variable, or one that is not valid UTF-8 (`None`), does not.
pub fn strict_style_tags_from_env(value: Option<String>) -> (on: bool)
    ensures
        on == (value matches Some(v) && truthy(v@)),
{
    let v = match value {
        Some(v) => v,
        None => return false,
    };
    let trimmed = trim(&chars_of(v.as_str()));
    let mut lowered: Vec<char> = Vec::new();
    let mut i: usize = 0;
    while i < trimmed.len()
        invariant
            i <= trimmed@.len(),
            lowered@ == trimmed@.take(i as int).map_values(|c: char| ascii_lowercase(c)),
        decreases trimmed@.len() - i,
    {
        let c = trimmed[i];
        let l = if 'A' <= c && c <= 'Z' { ((c as u32) + 32) as u8 as char } else { c };
        proof {
            if 'A' <= c && c <= 'Z' {
                assert((((c as u32) + 32) as u8) as char == ((c as u32) + 32) as char);
            }
        }
        lowered.push(l);
        proof {
            assert(lowered@ =~= trimmed@.take(i + 1).map_values(|c: char| ascii_lowercase(c)));
        }
        i = i + 1;
    }
    proof {
        assert(trimmed@.take(trimmed@.len() as int) =~= trimmed@);
        reveal_strlit("1");
        reveal_strlit("true");
        reveal_strlit("yes");
        reveal_strlit("on");
    }
    crate::text::chars_equal(&lowered, &chars_of("1")) || crate::text::chars_equal(&lowered, &chars_of("true"))
        || crate::text::chars_equal(&lowered, &chars_of("yes")) || crate::text::chars_equal(&lowered, &chars_of("on"))
}

/// The text of the error for style tags a render left unresolved while
/// strict style tags are on.
pub open spec fn unresolved_text(tags: Seq<Seq<char>>) -> Seq<char> {
    let one = tags.len() == 1;
    "strict_style_tags is enabled and the render left "@ + decimal(tags.len()) + " "@ + (if one {
        "style tag"@
    } else {
        "style tags"@
    }) + " unresolved: "@ + join_seq(tags, ", "@) + ". "@ + (if one {
        "It is"@
    } else {
        "They are"@
    }) + " not defined in the active theme (a typo, or a tag the theme does not style). Define "@ + (if one {
        "it"@
    } else {
        "them"@
    }) + " in the theme, correct the tag name, or disable strict_style_tags to degrade to unstyled text instead."@
}

/// The error for style tags a render left unresolved while strict style
/// tags are on: none when every tag resolved; otherwise a render error
/// counting and naming them.
pub fn unresolved_style_tags_error(unresolved: &Vec<String>) -> (e: Option<RunError>)
    ensures
        unresolved@.len() == 0 ==> e is None,
        unresolved@.len() > 0 ==> (e matches Some(r) && r.kind == RunErrorKind::Render && r.source is None
            && r.message@ == unresolved_text(tag_texts(unresolved@))),
{
    if unresolved.len() == 0 {
        return None;
    }
    let one = unresolved.len() == 1;
    let (noun, pronoun, object) = if one {
        ("style tag", "It is", "it")
    } else {
        ("style tags", "They are", "them")
    };
    let mut parts: Vec<Vec<char>> = Vec::new();
    let mut i: usize = 0;
    while i < unresolved.len()
        invariant
            i <= unresolved@.len(),
            parts@.map_values(|p: Vec<char>| p@) == tag_texts(unresolved@).take(i as int),
        decreases unresolved@.len() - i,
    {
        let ghost before = parts@;
        parts.push(chars_of(unresolved[i].as_str()));
        proof {
            assert(parts@.map_values(|p: Vec<char>| p@) =~= before.map_values(|p: Vec<char>| p@).push(unresolved@[i as int]@));
            assert(tag_texts(unresolved@).take(i + 1) =~= tag_texts(unresolved@).take(i as int).push(unresolved@[i as int]@));
        }
        i = i + 1;
    }
    proof {
        assert(tag_texts(unresolved@).take(unresolved@.len() as int) =~= tag_texts(unresolved@));
    }
    let tags = string_of(&join(&parts, &chars_of(", ")));
    let count = decimal_string(unresolved.len());
    let a = concat("strict_style_tags is enabled and the render left ", count.as_str());
    let b = concat(a.as_str(), " ");
    let c = concat(b.as_str(), noun);
    let d = concat(c.as_str(), " unresolved: ");
    let f = concat(d.as_str(), tags.as_str());
    let g = concat(f.as_str(), ". ");
    let h = concat(g.as_str(), pronoun);
    let k = concat(h.as_str(), " not defined in the active theme (a typo, or a tag the theme does not style). Define ");
    let m = concat(k.as_str(), object);
    let message = concat(
        m.as_str(),
        " in the theme, correct the tag name, or disable strict_style_tags to degrade to unstyled text instead.",
    );
    Some(RunError::new(message.as_str(), RunErrorKind::Render))
}

} // verus!
