//! Template references and the messages for a template that is missing:
//! the registered names nearest to the one asked for, by edit distance.

use vstd::prelude::*;

use crate::text::{append_str, cat, chars_of, join_seq, lex_less, lex_lt, lemma_lex_lt_transitive, lemma_lex_lt_trichotomy, string_of};

verus! {

broadcast use vstd::string::group_string_axioms;

/// Why a command declares no template.
#[derive(Debug, Clone, Copy, PartialEq, Eq, Structural)]
pub enum TemplateAbsence {
    /// The command prints nothing.
    Silent,
    /// The command has only structured output.
    StructuredOnly,
    /// The command writes binary bytes.
    Binary,
}

/// How a command names the template it renders with.
#[derive(Debug, Clone, PartialEq, Eq)]
pub enum TemplateRef {
    /// A template registered under this name.
    Named(String),
    /// This template source.
    Inline(String),
    /// No template, for this reason.
    Absent(TemplateAbsence),
}

/// `s` with every `.` replaced by `/`.
pub open spec fn dots_to_slashes(s: Seq<char>) -> Seq<char> {
    s.map_values(|c: char| if c == '.' { '/' } else { c })
}

impl TemplateRef {
    /// The template a command path renders with by convention: the path with
    /// its dots as slashes (`db.migrate` renders `db/migrate`).
    pub fn convention(command_path: &str) -> (t: Self)
        ensures
            t matches TemplateRef::Named(name) && name@ == dots_to_slashes(command_path@),
    {
        let chars = chars_of(command_path);
        let mut out: Vec<char> = Vec::new();
        let mut i: usize = 0;
        while i < chars.len()
            invariant
                i <= chars@.len(),
                chars@ == command_path@,
                out@ == dots_to_slashes(chars@.take(i as int)),
            decreases chars@.len() - i,
        {
            let c = chars[i];
            out.push(if c == '.' { '/' } else { c });
            proof {
                assert(chars@.take(i + 1) =~= chars@.take(i as int).push(c));
                assert(out@ =~= dots_to_slashes(chars@.take(i + 1)));
            }
            i = i + 1;
        }
        proof {
            assert(chars@.take(chars@.len() as int) =~= chars@);
        }
        TemplateRef::Named(string_of(&out))
    }
}

/// The smallest of three numbers.
pub open spec fn min3(a: nat, b: nat, c: nat) -> nat {
    if a <= b && a <= c {
        a
    } else if b <= c {
        b
    } else {
        c
    }
}

/// The Levenshtein distance: the fewest single-character insertions,
/// deletions and substitutions that turn `a` into `b`.
pub open spec fn levenshtein(a: Seq<char>, b: Seq<char>) -> nat
    decreases a.len() + b.len(),
{
    if a.len() == 0 {
        b.len()
    } else if b.len() == 0 {
        a.len()
    } else {
        min3(
            levenshtein(a.drop_last(), b) + 1,
            levenshtein(a, b.drop_last()) + 1,
            levenshtein(a.drop_last(), b.drop_last()) + if a.last() == b.last() { 0nat } else { 1nat },
        )
    }
}

/// The distance never exceeds the two lengths together.
pub proof fn lemma_levenshtein_bound(a: Seq<char>, b: Seq<char>)
    ensures
        levenshtein(a, b) <= a.len() + b.len(),
    decreases a.len() + b.len(),
{
    if a.len() > 0 && b.len() > 0 {
        lemma_levenshtein_bound(a.drop_last(), b);
    }
}

/// The edit distance between two strings.
pub fn edit_distance(left: &str, right: &str) -> (d: usize)
    requires
        left@.len() + right@.len() < usize::MAX,
    ensures
        d == levenshtein(left@, right@),
{
    let l = chars_of(left);
    let r = chars_of(right);
    let n = r.len();
    let mut costs: Vec<usize> = Vec::new();
    let mut k: usize = 0;
    while k <= n
        invariant
            k <= n + 1,
            n == r@.len(),
            r@ == right@,
            l@ == left@,
            left@.len() + right@.len() < usize::MAX,
            costs@.len() == k,
            forall|j: int| 0 <= j < k ==> costs@[j] == levenshtein(l@.take(0), r@.take(j)),
        decreases n + 1 - k,
    {
        proof {
            assert(l@.take(0).len() == 0);
        }
        costs.push(k);
        k = k + 1;
    }
    let mut i: usize = 0;
    while i < l.len()
        invariant
            i <= l@.len(),
            n == r@.len(),
            r@ == right@,
            l@ == left@,
            left@.len() + right@.len() < usize::MAX,
            costs@.len() == n + 1,
            forall|j: int| 0 <= j <= n ==> costs@[j] == levenshtein(l@.take(i as int), r@.take(j)),
        decreases l@.len() - i,
    {
        let ghost a = l@.take(i + 1);
        proof {
            assert(a.drop_last() =~= l@.take(i as int));
            assert(a.last() == l@[i as int]);
            lemma_levenshtein_bound(l@.take(i as int), r@.take(0));
        }
        let mut previous = costs[0];
        costs.set(0, i + 1);
        proof {
            assert(r@.take(0).len() == 0);
        }
        let mut j: usize = 0;
        while j < n
            invariant
                j <= n,
                i < l@.len(),
                n == r@.len(),
                a == l@.take(i + 1),
                a.drop_last() == l@.take(i as int),
                a.last() == l@[i as int],
                left@.len() + right@.len() < usize::MAX,
                l@ == left@,
                r@ == right@,
                costs@.len() == n + 1,
                forall|k: int| 0 <= k <= j ==> costs@[k] == levenshtein(a, r@.take(k)),
                forall|k: int| j < k <= n ==> costs@[k] == levenshtein(l@.take(i as int), r@.take(k)),
                previous == levenshtein(l@.take(i as int), r@.take(j as int)),
            decreases n - j,
        {
            let ghost b = r@.take(j + 1);
            proof {
                assert(b.drop_last() =~= r@.take(j as int));
                assert(b.last() == r@[j as int]);
                lemma_levenshtein_bound(l@.take(i as int), b);
                lemma_levenshtein_bound(a, r@.take(j as int));
                lemma_levenshtein_bound(l@.take(i as int), r@.take(j as int));
            }
            let substitution = previous + if l[i] != r[j] { 1usize } else { 0usize };
            previous = costs[j + 1];
            let deletion = costs[j + 1] + 1;
            let insertion = costs[j] + 1;
            let best = if deletion <= insertion && deletion <= substitution {
                deletion
            } else if insertion <= substitution {
                insertion
            } else {
                substitution
            };
            costs.set(j + 1, best);
            proof {
                assert(levenshtein(a, b) == min3(
                    levenshtein(a.drop_last(), b) + 1,
                    levenshtein(a, b.drop_last()) + 1,
                    levenshtein(a.drop_last(), b.drop_last()) + if a.last() == b.last() { 0nat } else { 1nat },
                ));
            }
            j = j + 1;
        }
        i = i + 1;
    }
    proof {
        assert(l@.take(l@.len() as int) =~= l@);
        assert(r@.take(n as int) =~= r@);
    }
    costs[n]
}

/// `needle` occurs in `hay` as a run of consecutive characters.
pub open spec fn contains_seq(hay: Seq<char>, needle: Seq<char>) -> bool {
    exists|i: int| 0 <= i && i + needle.len() <= hay.len() && #[trigger] hay.subrange(i, i + needle.len()) == needle
}

/// Whether `needle` occurs in `hay`.
pub fn contains(hay: &Vec<char>, needle: &Vec<char>) -> (b: bool)
    ensures
        b == contains_seq(hay@, needle@),
{
    if needle.len() > hay.len() {
        return false;
    }
    if needle.len() == 0 {
        proof {
            assert(hay@.subrange(0, 0 + needle@.len() as int) =~= needle@);
        }
        return true;
    }
    let h = hay.len();
    let n = needle.len();
    let last = h - n;
    let mut i: usize = 0;
    while i <= last
        invariant
            needle@.len() > 0,
            needle@.len() <= hay@.len(),
            h == hay@.len(),
            n == needle@.len(),
            last == hay@.len() - needle@.len(),
            i <= last + 1,
            forall|k: int| 0 <= k < i ==> #[trigger] hay@.subrange(k, k + needle@.len()) != needle@,
        decreases last + 1 - i,
    {
        let window = crate::text::slice_to_vec(hay, i, i + n);
        if crate::text::chars_equal(&window, needle) {
            return true;
        }
        i = i + 1;
    }
    false
}

/// A registered name worth suggesting for `name`: within three edits of it,
/// or containing it, or contained in it.
pub open spec fn suggestible(name: Seq<char>, candidate: Seq<char>) -> bool {
    levenshtein(name, candidate) <= 3 || contains_seq(candidate, name) || contains_seq(name, candidate)
}

/// The suggestion order: nearer names first, and among equally near ones the
/// alphabetically earlier.
pub open spec fn nearer(name: Seq<char>, x: Seq<char>, y: Seq<char>) -> bool {
    levenshtein(name, x) < levenshtein(name, y) || (levenshtein(name, x) == levenshtein(name, y) && lex_lt(x, y))
}

proof fn lemma_nearer_transitive(name: Seq<char>, x: Seq<char>, y: Seq<char>, z: Seq<char>)
    requires
        nearer(name, x, y),
        nearer(name, y, z),
    ensures
        nearer(name, x, z),
{
    if levenshtein(name, x) == levenshtein(name, y) && levenshtein(name, y) == levenshtein(name, z) {
        lemma_lex_lt_transitive(x, y, z);
    }
}

proof fn lemma_nearer_total(name: Seq<char>, x: Seq<char>, y: Seq<char>)
    ensures
        x == y || nearer(name, x, y) || nearer(name, y, x),
        !nearer(name, x, x),
{
    lemma_lex_lt_trichotomy(x, y);
}

/// Some candidate spells `text`.
pub open spec fn among(candidates: Seq<String>, text: Seq<char>) -> bool {
    exists|j: int| 0 <= j < candidates.len() && #[trigger] candidates[j]@ == text
}

/// `picked` are the (at most three) nearest suggestible candidates for `name`,
/// nearest first: each is a suggestible candidate, they strictly follow the
/// suggestion order, and a suggestible candidate left out comes after all
/// three that were picked.
pub open spec fn nearest_picks(name: Seq<char>, candidates: Seq<String>, picked: Seq<Seq<char>>) -> bool {
    &&& picked.len() <= 3
    &&& forall|i: int| 0 <= i < picked.len() ==> among(candidates, #[trigger] picked[i])
        && suggestible(name, picked[i])
    &&& forall|i: int, j: int| 0 <= i < j < picked.len() ==> nearer(name, #[trigger] picked[i], #[trigger] picked[j])
    &&& forall|j: int| 0 <= j < candidates.len() && suggestible(name, #[trigger] candidates[j]@) ==>
        picked.contains(candidates[j]@) || (picked.len() == 3 && nearer(name, picked.last(), candidates[j]@))
}

/// Each name between backticks.
pub open spec fn quoted_all(names: Seq<Seq<char>>) -> Seq<Seq<char>> {
    names.map_values(|p: Seq<char>| quoted(p))
}

/// A name between backticks.
pub open spec fn quoted(text: Seq<char>) -> Seq<char> {
    "`"@ + text + "`"@
}

/// The name between backticks, as a string.
fn quote(text: &str) -> (q: String)
    ensures
        q@ == quoted(text@),
{
    let q = cat(&["`", text, "`"]);
    proof {
        let parts = seq!["`"@, text@, "`"@];
        assert(parts.drop_first().drop_first().drop_first().flatten() =~= Seq::<char>::empty());
        assert(parts.drop_first().drop_first().flatten() =~= "`"@);
        assert(parts.drop_first().flatten() =~= text@ + "`"@);
        assert(parts.flatten() =~= quoted(text@));
        assert(seq!["`", text, "`"].map_values(|p: &str| p@) =~= parts);
    }
    q
}

/// What is known of each candidate: its distance to the name, whether it is
/// worth suggesting, and its characters.
pub open spec fn describes(name: Seq<char>, candidates: Seq<String>, infos: Seq<(usize, bool, Vec<char>)>) -> bool {
    &&& infos.len() == candidates.len()
    &&& forall|k: int| 0 <= k < infos.len() ==> (#[trigger] infos[k]).2@ == candidates[k]@
        && infos[k].0 == levenshtein(name, candidates[k]@)
        && infos[k].1 == suggestible(name, candidates[k]@)
}

/// Whether candidate `x` comes before candidate `y` in the suggestion order.
fn nearer_exec(infos: &Vec<(usize, bool, Vec<char>)>, x: usize, y: usize) -> (b: bool)
    requires
        x < infos@.len(),
        y < infos@.len(),
    ensures
        b == (infos@[x as int].0 < infos@[y as int].0
            || (infos@[x as int].0 == infos@[y as int].0 && lex_lt(infos@[x as int].2@, infos@[y as int].2@))),
{
    infos[x].0 < infos[y].0 || (infos[x].0 == infos[y].0 && lex_less(&infos[x].2, &infos[y].2))
}

/// The registered names to suggest for a missing template `name`: the (at
/// most three) nearest suggestible canonical names, nearest first, each
/// between backticks.
pub fn nearest_template_names(name: &str, candidates: &Vec<String>) -> (suggestions: Vec<String>)
    requires
        forall|j: int| 0 <= j < candidates@.len() ==> name@.len() + (#[trigger] candidates@[j])@.len() < usize::MAX,
    ensures
        exists|picked: Seq<Seq<char>>| nearest_picks(name@, candidates@, picked)
            && suggestions@.map_values(|s: String| s@) == quoted_all(picked),
{
    let target = chars_of(name);
    let mut infos: Vec<(usize, bool, Vec<char>)> = Vec::new();
    let mut j: usize = 0;
    while j < candidates.len()
        invariant
            j <= candidates@.len(),
            target@ == name@,
            forall|k: int| 0 <= k < candidates@.len() ==> name@.len() + (#[trigger] candidates@[k])@.len() < usize::MAX,
            infos@.len() == j,
            forall|k: int| 0 <= k < j ==> (#[trigger] infos@[k]).2@ == candidates@[k]@
                && infos@[k].0 == levenshtein(name@, candidates@[k]@)
                && infos@[k].1 == suggestible(name@, candidates@[k]@),
        decreases candidates@.len() - j,
    {
        let text = chars_of(candidates[j].as_str());
        let d = edit_distance(name, candidates[j].as_str());
        let fit = d <= 3 || contains(&text, &target) || contains(&target, &text);
        infos.push((d, fit, text));
        j = j + 1;
    }
    let mut picked: Vec<usize> = Vec::new();
    let ghost mut views: Seq<Seq<char>> = seq![];
    let mut round: usize = 0;
    let mut exhausted = false;
    while round < 3 && !exhausted
        invariant
            round <= 3,
            describes(name@, candidates@, infos@),
            picked@.len() == round,
            views.len() == round,
            forall|i: int| 0 <= i < round ==> #[trigger] picked@[i] < candidates@.len()
                && views[i] == candidates@[picked@[i] as int]@,
            forall|i: int| 0 <= i < views.len() ==> among(candidates@, #[trigger] views[i])
                && suggestible(name@, views[i]),
            forall|i: int, k: int| 0 <= i < k < views.len() ==> nearer(name@, #[trigger] views[i], #[trigger] views[k]),
            forall|k: int| 0 <= k < candidates@.len() && suggestible(name@, #[trigger] candidates@[k]@) ==>
                views.contains(candidates@[k]@) || views.len() == 0 || nearer(name@, views.last(), candidates@[k]@),
            exhausted ==> forall|k: int| 0 <= k < candidates@.len() && suggestible(name@, #[trigger] candidates@[k]@) ==>
                views.contains(candidates@[k]@),
        decreases 2 * (3 - round) + if exhausted { 0int } else { 1int },
    {
        let mut best: Option<usize> = None;
        let mut k: usize = 0;
        while k < candidates.len()
            invariant
                k <= candidates@.len(),
                describes(name@, candidates@, infos@),
                picked@.len() == round,
                views.len() == round,
                forall|i: int| 0 <= i < round ==> #[trigger] picked@[i] < candidates@.len()
                    && views[i] == candidates@[picked@[i] as int]@,
                match best {
                    Some(b) => b < candidates@.len() && suggestible(name@, candidates@[b as int]@)
                        && (views.len() > 0 ==> nearer(name@, views.last(), candidates@[b as int]@)),
                    None => true,
                },
                forall|q: int| 0 <= q < k && suggestible(name@, #[trigger] candidates@[q]@)
                    && (views.len() > 0 ==> nearer(name@, views.last(), candidates@[q]@)) ==>
                    best is Some && !nearer(name@, candidates@[q]@, candidates@[best->0 as int]@),
            decreases candidates@.len() - k,
        {
            let ghost c = candidates@[k as int]@;
            proof {
                assert(infos@[k as int].2@ == c);
            }
            if infos[k].1 {
                let after_last = if picked.len() == 0 {
                    true
                } else {
                    let last = picked[picked.len() - 1];
                    proof {
                        assert(infos@[last as int].2@ == candidates@[last as int]@);
                        assert(views.last() == candidates@[last as int]@);
                    }
                    nearer_exec(&infos, last, k)
                };
                if after_last {
                    let better = match best {
                        None => true,
                        Some(b) => {
                            proof {
                                assert(infos@[b as int].2@ == candidates@[b as int]@);
                            }
                            nearer_exec(&infos, k, b)
                        },
                    };
                    if better {
                        proof {
                            lemma_nearer_total(name@, c, c);
                            if let Some(b) = best {
                                assert forall|q: int| 0 <= q < k && suggestible(name@, #[trigger] candidates@[q]@)
                                    && (views.len() > 0 ==> nearer(name@, views.last(), candidates@[q]@)) implies
                                    !nearer(name@, candidates@[q]@, c) by {
                                    if nearer(name@, candidates@[q]@, c) {
                                        lemma_nearer_transitive(name@, candidates@[q]@, c, candidates@[b as int]@);
                                    }
                                }
                            }
                        }
                        best = Some(k);
                    } else {
                        proof {
                            let b = best->0;
                            lemma_nearer_total(name@, candidates@[b as int]@, c);
                        }
                    }
                }
            }
            k = k + 1;
        }
        match best {
            None => {
                proof {
                    assert forall|q: int| 0 <= q < candidates@.len() && suggestible(name@, #[trigger] candidates@[q]@) implies
                        views.contains(candidates@[q]@) by {
                        if !views.contains(candidates@[q]@) {
                            assert(views.len() > 0 && nearer(name@, views.last(), candidates@[q]@));
                        }
                    }
                }
                exhausted = true;
            },
            Some(b) => {
                let ghost m = candidates@[b as int]@;
                proof {
                    assert(among(candidates@, m));
                    assert forall|q: int| 0 <= q < candidates@.len() && suggestible(name@, #[trigger] candidates@[q]@) implies
                        views.push(m).contains(candidates@[q]@) || nearer(name@, m, candidates@[q]@) by {
                        let c = candidates@[q]@;
                        if views.contains(c) {
                            let w = choose|w: int| 0 <= w < views.len() && views[w] == c;
                            assert(views.push(m)[w] == c);
                        } else {
                            lemma_nearer_total(name@, m, c);
                            if c == m {
                                assert(views.push(m)[views.len() as int] == c);
                            }
                        }
                    }
                    assert forall|i: int, q: int| 0 <= i < q < views.push(m).len() implies
                        nearer(name@, #[trigger] views.push(m)[i], #[trigger] views.push(m)[q]) by {
                        if q == views.len() && i < views.len() - 1 {
                            lemma_nearer_transitive(name@, views[i], views.last(), m);
                        }
                    }
                }
                picked.push(b);
                proof {
                    views = views.push(m);
                }
                round = round + 1;
            },
        }
    }
    let mut suggestions: Vec<String> = Vec::new();
    let mut i: usize = 0;
    while i < picked.len()
        invariant
            i <= picked@.len(),
            views.len() == picked@.len(),
            forall|q: int| 0 <= q < picked@.len() ==> #[trigger] picked@[q] < candidates@.len()
                && views[q] == candidates@[picked@[q] as int]@,
            suggestions@.map_values(|s: String| s@) == views.take(i as int).map_values(|p: Seq<char>| quoted(p)),
        decreases picked@.len() - i,
    {
        let ghost before = suggestions@;
        suggestions.push(quote(candidates[picked[i]].as_str()));
        proof {
            assert(suggestions@.map_values(|s: String| s@) =~= before.map_values(|s: String| s@).push(quoted(views[i as int])));
            assert(views.take(i + 1) =~= views.take(i as int).push(views[i as int]));
            assert(views.take(i + 1).map_values(|p: Seq<char>| quoted(p))
                =~= views.take(i as int).map_values(|p: Seq<char>| quoted(p)).push(quoted(views[i as int])));
        }
        i = i + 1;
    }
    proof {
        assert(views.take(views.len() as int) =~= views);
        assert(nearest_picks(name@, candidates@, views));
        assert(suggestions@.map_values(|s: String| s@) == quoted_all(views));
    }
    suggestions
}

/// The first (at most five) canonical names, each between backticks.
pub fn available_template_names(candidates: &Vec<String>) -> (names: Vec<String>)
    ensures
        names@.map_values(|s: String| s@)
            == candidates@.take(if candidates@.len() < 5 { candidates@.len() as int } else { 5 })
                .map_values(|c: String| quoted(c@)),
{
    let limit: usize = if candidates.len() < 5 { candidates.len() } else { 5 };
    let mut names: Vec<String> = Vec::new();
    let mut i: usize = 0;
    while i < limit
        invariant
            i <= limit,
            limit <= candidates@.len(),
            names@.map_values(|s: String| s@) == candidates@.take(i as int).map_values(|c: String| quoted(c@)),
        decreases limit - i,
    {
        let ghost before = names@;
        names.push(quote(candidates[i].as_str()));
        proof {
            assert(names@.map_values(|s: String| s@)
                =~= before.map_values(|s: String| s@).push(quoted(candidates@[i as int]@)));
            assert(candidates@.take(i + 1) =~= candidates@.take(i as int).push(candidates@[i as int]));
            assert(candidates@.take(i + 1).map_values(|c: String| quoted(c@))
                =~= candidates@.take(i as int).map_values(|c: String| quoted(c@)).push(quoted(candidates@[i as int]@)));
        }
        i = i + 1;
    }
    names
}

/// What a template registry holds that the missing-template message reads:
/// whether the application registered templates of its own, and its
/// canonical template names (one per template, whatever extensions it was
/// registered under).
#[derive(Debug, Clone)]
pub struct TemplateCatalog {
    /// Whether the application registered templates of its own.
    pub has_application_templates: bool,
    /// The canonical template names.
    pub names: Vec<String>,
}

/// The names of a list of strings, as character sequences.
pub open spec fn texts(v: Seq<String>) -> Seq<Seq<char>> {
    v.map_values(|s: String| s@)
}

/// Append `parts` to `out` with `", "` between each two.
fn append_joined(out: &mut Vec<char>, parts: &Vec<String>)
    ensures
        final(out)@ == old(out)@ + join_seq(texts(parts@), ", "@),
{
    let ghost views = texts(parts@);
    let ghost start = out@;
    let mut i: usize = 0;
    while i < parts.len()
        invariant
            i <= parts@.len(),
            views == texts(parts@),
            out@ == start + join_seq(views.take(i as int), ", "@),
        decreases parts@.len() - i,
    {
        proof {
            assert(views.take(i + 1).drop_last() =~= views.take(i as int));
        }
        if i > 0 {
            append_str(out, ", ");
        } else {
            proof { assert(views.take(1) =~= seq![views[0]]); }
        }
        append_str(out, parts[i].as_str());
        proof {
            assert(views[i as int] == parts@[i as int]@);
            if i > 0 {
                assert(out@ =~= start + (join_seq(views.take(i as int), ", "@) + ", "@ + views[i as int]));
            } else {
                assert(out@ =~= start + views[0]);
            }
        }
        i = i + 1;
    }
    proof { assert(views.take(parts@.len() as int) =~= views); }
}

/// The message for a command path that references a template nobody
/// registered.
pub open spec fn missing_template_text(
    command_path: Seq<char>,
    template_name: Seq<char>,
    catalog: Option<TemplateCatalog>,
    suggestions: Seq<Seq<char>>,
) -> Seq<char> {
    let with_templates = catalog matches Some(c) && c.has_application_templates;
    if !with_templates {
        "command `"@ + command_path + "` references template `"@ + template_name
            + "`, but no application templates are configured; add .templates(embed_templates!(\"src/templates\")) or .templates_dir(\"path/to/templates\") before .build(), or declare no presentation with .structured_only(), .silent(), or .binary()"@
    } else {
        let base = "command `"@ + command_path + "` references template `"@ + template_name
            + "`, but that template is not registered; add it with .templates(embed_templates!(\"src/templates\")) or .templates_dir(\"path/to/templates\")"@;
        let names = texts(catalog->0.names@);
        if suggestions.len() > 0 {
            base + "; did you mean "@ + join_seq(suggestions, ", "@) + "?"@
        } else if names.len() > 0 {
            base + "; available templates: "@
                + join_seq(names.take(if names.len() < 5 { names.len() as int } else { 5 }).map_values(|c: Seq<char>| quoted(c)), ", "@)
        } else {
            base
        }
    }
}

/// The message for a command path that references a template nobody
/// registered: with application templates registered, the nearest names
/// (or, with none near, the first available ones) are suggested.
pub fn missing_template_message(command_path: &str, template_name: &str, catalog: Option<&TemplateCatalog>)
    -> (message: String)
    requires
        catalog matches Some(c) ==> forall|j: int| 0 <= j < c.names@.len()
            ==> template_name@.len() + (#[trigger] c.names@[j])@.len() < usize::MAX,
    ensures
        exists|picked: Seq<Seq<char>>| {
            &&& match catalog {
                Some(c) => c.has_application_templates ==> nearest_picks(template_name@, c.names@, picked),
                None => true,
            }
            &&& message@ == missing_template_text(command_path@, template_name@, match catalog {
                Some(c) => Some(*c),
                None => None,
            }, #[trigger] quoted_all(picked))
        },
{
    let mut out: Vec<char> = Vec::new();
    append_str(&mut out, "command `");
    append_str(&mut out, command_path);
    append_str(&mut out, "` references template `");
    append_str(&mut out, template_name);
    let with_templates = match catalog {
        Some(c) => c.has_application_templates,
        None => false,
    };
    if !with_templates {
        append_str(&mut out, "`, but no application templates are configured; add .templates(embed_templates!(\"src/templates\")) or .templates_dir(\"path/to/templates\") before .build(), or declare no presentation with .structured_only(), .silent(), or .binary()");
        proof {
            let none: Seq<Seq<char>> = seq![];
            assert(quoted_all(none) =~= none);
            assert(out@ =~= missing_template_text(command_path@, template_name@, match catalog {
                Some(c) => Some(*c),
                None => None,
            }, quoted_all(none)));
        }
        return string_of(&out);
    }
    let c = catalog.unwrap();
    append_str(&mut out, "`, but that template is not registered; add it with .templates(embed_templates!(\"src/templates\")) or .templates_dir(\"path/to/templates\")");
    let ghost base = out@;
    let suggestions = nearest_template_names(template_name, &c.names);
    let ghost picked = choose|picked: Seq<Seq<char>>| nearest_picks(template_name@, c.names@, picked)
        && suggestions@.map_values(|s: String| s@) == quoted_all(picked);
    if suggestions.len() > 0 {
        append_str(&mut out, "; did you mean ");
        append_joined(&mut out, &suggestions);
        append_str(&mut out, "?");
    } else {
        let available = available_template_names(&c.names);
        if available.len() > 0 {
            append_str(&mut out, "; available templates: ");
            append_joined(&mut out, &available);
        }
        proof {
            let names = texts(c.names@);
            assert(texts(available@) =~= names.take(if names.len() < 5 { names.len() as int } else { 5 })
                .map_values(|q: Seq<char>| quoted(q)));
        }
    }
    proof {
        assert(texts(suggestions@) == quoted_all(picked));
        assert(out@ =~= missing_template_text(command_path@, template_name@, Some(*c),
            quoted_all(picked)));
    }
    string_of(&out)
}

/// The message for an incremental command whose event template is missing.
pub fn missing_event_template_message(command_path: &str, template_name: &str, event_name: &str)
    -> (message: String)
    ensures
        message@ == "command `"@ + command_path@
            + "` produces its result while it runs, so it renders each event from template `"@ + event_name@
            + "`, but that template is not registered; add it beside `"@ + template_name@
            + "`, or drop the `Results` parameter if the command produces one batch value instead"@,
{
    let mut out: Vec<char> = Vec::new();
    append_str(&mut out, "command `");
    append_str(&mut out, command_path);
    append_str(&mut out, "` produces its result while it runs, so it renders each event from template `");
    append_str(&mut out, event_name);
    append_str(&mut out, "`, but that template is not registered; add it beside `");
    append_str(&mut out, template_name);
    append_str(&mut out, "`, or drop the `Results` parameter if the command produces one batch value instead");
    string_of(&out)
}

/// A template that could not be refreshed from its source.
#[derive(Debug, Clone)]
pub struct TemplateRefreshError {
    name: String,
    location: String,
    message: String,
}

impl TemplateRefreshError {
    /// The error for template `name`, found at `location` (`` at `path` ``
    /// for a file, empty otherwise), with the reason `message`.
    pub fn new(name: &str, location: &str, message: &str) -> (e: Self)
        ensures
            e.name_text() == name@,
            e.location_text() == location@,
            e.message_text() == message@,
    {
        TemplateRefreshError { name: name.to_string(), location: location.to_string(), message: message.to_string() }
    }

    /// The template's name.
    pub closed spec fn name_text(&self) -> Seq<char> {
        self.name@
    }

    /// Where the template was found.
    pub closed spec fn location_text(&self) -> Seq<char> {
        self.location@
    }

    /// Why it could not be refreshed.
    pub closed spec fn message_text(&self) -> Seq<char> {
        self.message@
    }

    /// The error as text: the reason alone for an unnamed template, else
    /// ``template `name`{location} could not be refreshed: {message}``.
    pub fn to_text(&self) -> (t: String)
        ensures
            t@ == if self.name_text().len() == 0 {
                self.message_text()
            } else {
                "template `"@ + self.name_text() + "`"@ + self.location_text() + " could not be refreshed: "@
                    + self.message_text()
            },
    {
        if self.name.as_str().is_empty() {
            return self.message.clone();
        }
        let mut out: Vec<char> = Vec::new();
        append_str(&mut out, "template `");
        append_str(&mut out, self.name.as_str());
        append_str(&mut out, "`");
        append_str(&mut out, self.location.as_str());
        append_str(&mut out, " could not be refreshed: ");
        append_str(&mut out, self.message.as_str());
        string_of(&out)
    }
}

/// `s` ends with `suffix`.
pub open spec fn ends_with(s: Seq<char>, suffix: Seq<char>) -> bool {
    suffix.len() <= s.len() && s.skip(s.len() - suffix.len()) == suffix
}

/// The name a template is known by whatever extension it was registered
/// with: `name` without the first of `extensions` it ends with.
pub open spec fn alias_key(name: Seq<char>, extensions: Seq<Seq<char>>) -> Seq<char>
    decreases extensions.len(),
{
    if extensions.len() == 0 {
        name
    } else if ends_with(name, extensions[0]) {
        name.take(name.len() - extensions[0].len())
    } else {
        alias_key(name, extensions.drop_first())
    }
}

/// `name` without the first of `extensions` (tried in order) it ends with.
pub fn template_alias_key(name: &str, extensions: &[&str]) -> (key: String)
    ensures
        key@ == alias_key(name@, extensions@.map_values(|e: &str| e@)),
{
    let ghost exts = extensions@.map_values(|e: &str| e@);
    let chars = chars_of(name);
    let mut i: usize = 0;
    proof {
        assert(exts.skip(0) =~= exts);
    }
    while i < extensions.len()
        invariant
            i <= extensions@.len(),
            chars@ == name@,
            exts == extensions@.map_values(|e: &str| e@),
            alias_key(name@, exts) == alias_key(name@, exts.skip(i as int)),
        decreases extensions@.len() - i,
    {
        let ext = chars_of(extensions[i]);
        proof {
            assert(exts.skip(i as int)[0] == ext@);
            assert(exts.skip(i as int).drop_first() =~= exts.skip(i + 1));
        }
        if ext.len() <= chars.len() {
            let tail = crate::text::slice_to_vec(&chars, chars.len() - ext.len(), chars.len());
            if crate::text::chars_equal(&tail, &ext) {
                let head = crate::text::slice_to_vec(&chars, 0, chars.len() - ext.len());
                return string_of(&head);
            }
        }
        i = i + 1;
    }
    string_of(&chars)
}

} // verus!
