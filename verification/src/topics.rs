//! Help topics: documentation beyond `--help`, registered inline or loaded
//! from a directory of `.txt`/`.md` files (the first non-blank line is the
//! title; the file name minus its extension is the name).

use vstd::prelude::*;

use crate::cli::representation::{ColorPolicy, Representation};
use crate::io::{IoErrorKind, IoFailure};
use crate::text::{
    chars_of, concat, join, join_seq, lex_less, lex_lt, lemma_lex_lt_transitive,
    lemma_lex_lt_trichotomy, lines, lines_seq, string_of, trim, trim_end, trim_end_seq, trim_seq,
};

verus! {

/// The format a topic's content is written in.
#[derive(Debug, Clone, Copy, PartialEq, Eq, Structural)]
pub enum TopicType {
    /// Plain text (the default).
    Text,
    /// Markdown.
    Markdown,
    /// Any other format.
    Unknown,
}

impl Default for TopicType {
    fn default() -> (t: Self)
        ensures
            t == TopicType::Text,
    {
        TopicType::Text
    }
}

/// Every character is ASCII.
pub open spec fn is_ascii_seq(s: Seq<char>) -> bool {
    forall|i: int| 0 <= i < s.len() ==> (s[i] as u32) < 128
}

/// Every character is below DEL (U+007F): the characters `deunicode` copies
/// unchanged.
pub open spec fn is_below_del(s: Seq<char>) -> bool {
    forall|i: int| 0 <= i < s.len() ==> (s[i] as u32) < 0x7F
}

/// What `deunicode::deunicode` makes of a text: its ASCII transliteration.
pub uninterp spec fn transliteration(s: Seq<char>) -> Seq<char>;

/// `deunicode::deunicode`: the ASCII transliteration of `s`. The result is
/// ASCII, and a text whose characters are all below DEL comes back as it
/// is (the crate's fast path copies such a text; DEL itself maps to nothing
/// in its table). What each other character becomes is left to the crate's
/// tables and is not stated.
#[verifier::external_body]
fn transliterate(s: &str) -> (r: String)
    ensures
        r@ == transliteration(s@),
        is_ascii_seq(r@),
        is_below_del(s@) ==> r@ == s@,
{
    deunicode::deunicode(s)
}

/// `c` lowercased if it is an ASCII capital.
pub open spec fn ascii_lower(c: char) -> char {
    if 'A' <= c && c <= 'Z' {
        ((c as u32) + 32) as char
    } else {
        c
    }
}

/// An ASCII letter or digit.
pub open spec fn is_ascii_alnum(c: char) -> bool {
    ('a' <= c && c <= 'z') || ('A' <= c && c <= 'Z') || ('0' <= c && c <= '9')
}

/// The character a transliterated character becomes in a slug: lowercased,
/// with a space turned into a dash.
pub open spec fn slug_char(c: char) -> char {
    if c == ' ' {
        '-'
    } else {
        ascii_lower(c)
    }
}

/// The slug of an ASCII text: lowercased, spaces as dashes, everything but
/// letters, digits and dashes dropped, and each run of dashes kept as one.
pub open spec fn slug_of_ascii(s: Seq<char>) -> Seq<char>
    decreases s.len(),
{
    if s.len() == 0 {
        seq![]
    } else {
        let prev = slug_of_ascii(s.drop_last());
        let c = slug_char(s.last());
        if !(is_ascii_alnum(c) || c == '-') {
            prev
        } else if c == '-' && prev.len() > 0 && prev.last() == '-' {
            prev
        } else {
            prev.push(c)
        }
    }
}

/// The name a topic gets from its title when none is given.
pub open spec fn slug(title: Seq<char>) -> Seq<char> {
    slug_of_ascii(transliteration(title))
}

/// No dash follows another.
pub open spec fn no_double_dash(s: Seq<char>) -> bool {
    forall|i: int| 0 <= i < s.len() - 1 ==> !(#[trigger] s[i] == '-' && s[i + 1] == '-')
}

/// A slug holds only lowercase letters, digits and dashes, never two dashes in a row.
pub proof fn lemma_slug_shape(s: Seq<char>)
    ensures
        no_double_dash(slug_of_ascii(s)),
        forall|i: int| 0 <= i < slug_of_ascii(s).len() ==> {
            let c = #[trigger] slug_of_ascii(s)[i];
            ('a' <= c && c <= 'z') || ('0' <= c && c <= '9') || c == '-'
        },
    decreases s.len(),
{
    if s.len() > 0 {
        lemma_slug_shape(s.drop_last());
        let prev = slug_of_ascii(s.drop_last());
        let c = slug_char(s.last());
        if (is_ascii_alnum(c) || c == '-') && !(c == '-' && prev.len() > 0 && prev.last() == '-') {
            assert(slug_of_ascii(s) == prev.push(c));
            assert forall|i: int| 0 <= i < prev.push(c).len() - 1 implies
                !(#[trigger] prev.push(c)[i] == '-' && prev.push(c)[i + 1] == '-') by {
                if i < prev.len() - 1 {
                    assert(prev.push(c)[i] == prev[i] && prev.push(c)[i + 1] == prev[i + 1]);
                }
            }
        }
    }
}

/// The slug of a transliterated title.
fn slug_from_ascii(s: &Vec<char>) -> (r: Vec<char>)
    ensures
        r@ == slug_of_ascii(s@),
{
    let mut r: Vec<char> = Vec::new();
    let mut i: usize = 0;
    while i < s.len()
        invariant
            i <= s@.len(),
            r@ == slug_of_ascii(s@.take(i as int)),
        decreases s@.len() - i,
    {
        proof {
            assert(s@.take(i + 1).drop_last() =~= s@.take(i as int));
        }
        let raw = s[i];
        let c = if raw == ' ' {
            '-'
        } else if 'A' <= raw && raw <= 'Z' {
            ((raw as u8) + 32) as char
        } else {
            raw
        };
        let keep = ('a' <= c && c <= 'z') || ('A' <= c && c <= 'Z') || ('0' <= c && c <= '9')
            || c == '-';
        if keep && !(c == '-' && r.len() > 0 && r[r.len() - 1] == '-') {
            r.push(c);
        }
        i = i + 1;
    }
    proof {
        assert(s@.take(s@.len() as int) =~= s@);
    }
    r
}

/// A help topic.
#[derive(Debug, Clone)]
pub struct Topic {
    /// The title shown above the content.
    pub title: String,
    /// The topic's text.
    pub content: String,
    /// The format the content is written in.
    pub topic_type: TopicType,
    /// The name the topic is looked up by.
    pub name: String,
}

/// The name a topic gets: the one given, else the slug of its title.
pub open spec fn topic_name(title: Seq<char>, name: Option<Seq<char>>) -> Seq<char> {
    match name {
        Some(n) => n,
        None => slug(title),
    }
}

/// A topic as plain values: title, content and format.
pub open spec fn topic_entry(t: Topic) -> (Seq<char>, Seq<char>, TopicType) {
    (t.title@, t.content@, t.topic_type)
}

/// The text an optional string holds, as an optional character sequence.
pub open spec fn opt_view(s: Option<String>) -> Option<Seq<char>> {
    match s {
        Some(s) => Some(s@),
        None => None,
    }
}

impl Topic {
    /// A topic named `name`, or after the slug of its title when `name` is `None`.
    pub fn new(title: &str, content: &str, topic_type: TopicType, name: Option<String>) -> (t: Self)
        ensures
            t.title@ == title@,
            t.content@ == content@,
            t.topic_type == topic_type,
            t.name@ == topic_name(title@, opt_view(name)),
            name is None && is_below_del(title@) ==> t.name@ == slug_of_ascii(title@),
    {
        let name = match name {
            Some(n) => n,
            None => Self::generate_slug(title),
        };
        Topic { title: title.to_string(), content: content.to_string(), topic_type, name }
    }

    /// The slug of a title: its transliteration lowercased, spaces as dashes,
    /// everything but letters, digits and dashes dropped, runs of dashes as one.
    pub fn generate_slug(title: &str) -> (s: String)
        ensures
            s@ == slug(title@),
            is_below_del(title@) ==> s@ == slug_of_ascii(title@),
    {
        let ascii = transliterate(title);
        let chars = chars_of(ascii.as_str());
        let slug = slug_from_ascii(&chars);
        string_of(&slug)
    }
}

/// No name occurs twice.
pub open spec fn names_distinct(topics: Seq<Topic>) -> bool {
    forall|i: int, j: int|
        0 <= i < j < topics.len() ==> #[trigger] topics[i].name@ != #[trigger] topics[j].name@
}

/// The topics as a map from name to (title, content, format).
pub open spec fn topic_map(topics: Seq<Topic>) -> Map<Seq<char>, (Seq<char>, Seq<char>, TopicType)>
    decreases topics.len(),
{
    if topics.len() == 0 {
        Map::empty()
    } else {
        topic_map(topics.drop_last()).insert(topics.last().name@, topic_entry(topics.last()))
    }
}

/// A topic name is in the map exactly when some topic carries it, and maps to that topic.
proof fn lemma_topic_map_lookup(topics: Seq<Topic>)
    requires
        names_distinct(topics),
    ensures
        forall|i: int| 0 <= i < topics.len() ==> #[trigger] topic_map(topics).contains_key(topics[i].name@)
            && topic_map(topics)[topics[i].name@] == topic_entry(topics[i]),
        forall|k: Seq<char>| #[trigger] topic_map(topics).contains_key(k) ==>
            exists|i: int| 0 <= i < topics.len() && topics[i].name@ == k,
    decreases topics.len(),
{
    if topics.len() > 0 {
        let prefix = topics.drop_last();
        assert(names_distinct(prefix)) by {
            assert forall|a: int, b: int| 0 <= a < b < prefix.len() implies
                #[trigger] prefix[a].name@ != #[trigger] prefix[b].name@ by {
                assert(topics[a].name@ != topics[b].name@);
            }
        }
        lemma_topic_map_lookup(prefix);
        assert(topic_map(topics) == topic_map(prefix).insert(topics.last().name@, topic_entry(topics.last())));
        assert forall|i: int| 0 <= i < topics.len() implies #[trigger] topic_map(topics).contains_key(topics[i].name@)
            && topic_map(topics)[topics[i].name@] == topic_entry(topics[i]) by {
            if i < topics.len() - 1 {
                assert(topics[i] == prefix[i]);
                assert(topic_map(prefix).contains_key(prefix[i].name@));
                assert(topics[i].name@ != topics[topics.len() - 1].name@);
            } else {
                assert(topics[i] == topics.last());
            }
        }
        assert forall|k: Seq<char>| #[trigger] topic_map(topics).contains_key(k) implies
            exists|i: int| 0 <= i < topics.len() && topics[i].name@ == k by {
            if k != topics.last().name@ {
                assert(topic_map(prefix).contains_key(k));
                let i = choose|i: int| 0 <= i < prefix.len() && prefix[i].name@ == k;
                assert(topics[i] == prefix[i]);
            } else {
                assert(topics[topics.len() - 1].name@ == k);
            }
        }
    }
}

/// Distinct names give a map with one key per topic.
proof fn lemma_topic_map_size(topics: Seq<Topic>)
    requires
        names_distinct(topics),
    ensures
        topic_map(topics).dom().finite(),
        topic_map(topics).dom().len() == topics.len(),
    decreases topics.len(),
{
    if topics.len() > 0 {
        let prefix = topics.drop_last();
        assert(names_distinct(prefix)) by {
            assert forall|a: int, b: int| 0 <= a < b < prefix.len() implies
                #[trigger] prefix[a].name@ != #[trigger] prefix[b].name@ by {
                assert(topics[a].name@ != topics[b].name@);
            }
        }
        lemma_topic_map_size(prefix);
        lemma_topic_map_lookup(prefix);
        if topic_map(prefix).contains_key(topics.last().name@) {
            let i = choose|i: int| 0 <= i < prefix.len() && prefix[i].name@ == topics.last().name@;
            assert(topics[i].name@ != topics[topics.len() - 1].name@);
        }
        assert(topic_map(topics).dom() =~= topic_map(prefix).dom().insert(topics.last().name@));
    }
}

/// The registry of topics, keyed by name.
///
/// Its view maps each name to the topic's title, content and format.
pub struct TopicRegistry {
    topics: Vec<Topic>,
}

impl View for TopicRegistry {
    type V = Map<Seq<char>, (Seq<char>, Seq<char>, TopicType)>;

    closed spec fn view(&self) -> Self::V {
        topic_map(self.topics@)
    }
}

/// A copy of a topic, field by field.
fn copy_topic(t: &Topic) -> (c: Topic)
    ensures
        c == *t,
{
    Topic { title: t.title.clone(), content: t.content.clone(), topic_type: t.topic_type, name: t.name.clone() }
}

impl Clone for TopicRegistry {
    /// A registry holding the same topics.
    fn clone(&self) -> (r: Self)
        ensures
            r@ == self@,
    {
        proof {
            use_type_invariant(self);
        }
        let mut topics: Vec<Topic> = Vec::new();
        let mut i: usize = 0;
        while i < self.topics.len()
            invariant
                i <= self.topics@.len(),
                topics@ == self.topics@.take(i as int),
            decreases self.topics@.len() - i,
        {
            topics.push(copy_topic(&self.topics[i]));
            proof {
                assert(topics@ =~= self.topics@.take(i + 1));
            }
            i = i + 1;
        }
        proof {
            assert(self.topics@.take(self.topics@.len() as int) =~= self.topics@);
        }
        TopicRegistry { topics }
    }
}

impl Default for TopicRegistry {
    fn default() -> (r: Self)
        ensures
            r@ == Map::<Seq<char>, (Seq<char>, Seq<char>, TopicType)>::empty(),
    {
        TopicRegistry::new()
    }
}

impl TopicRegistry {
    #[verifier::type_invariant]
    spec fn names_are_distinct(self) -> bool {
        names_distinct(self.topics@)
    }

    /// An empty registry.
    pub fn new() -> (r: Self)
        ensures
            r@ == Map::<Seq<char>, (Seq<char>, Seq<char>, TopicType)>::empty(),
    {
        let topics: Vec<Topic> = Vec::new();
        proof {
            assert(names_distinct(topics@));
        }
        TopicRegistry { topics }
    }

    /// Where the topic named `name` stands, if one does.
    fn position(&self, name: &Vec<char>) -> (found: Option<usize>)
        ensures
            match found {
                Some(i) => i < self.topics@.len() && self.topics@[i as int].name@ == name@,
                None => forall|i: int| 0 <= i < self.topics@.len() ==> self.topics@[i].name@ != name@,
            },
    {
        let mut i: usize = 0;
        while i < self.topics.len()
            invariant
                i <= self.topics@.len(),
                forall|k: int| 0 <= k < i ==> self.topics@[k].name@ != name@,
            decreases self.topics@.len() - i,
        {
            let candidate = chars_of(self.topics[i].name.as_str());
            if crate::text::chars_equal(&candidate, name) {
                return Some(i);
            }
            i = i + 1;
        }
        None
    }

    /// Register a topic. A name that is already registered is a collision,
    /// on which the registry panics; callers leave that input out.
    pub fn add_topic(&mut self, topic: Topic)
        requires
            !old(self)@.contains_key(topic.name@),
        ensures
            final(self)@ == old(self)@.insert(topic.name@, topic_entry(topic)),
            final(self)@.dom().len() == old(self)@.dom().len() + 1,
    {
        proof {
            use_type_invariant(&*self);
            lemma_topic_map_lookup(self.topics@);
            lemma_topic_map_size(self.topics@);
        }
        let mut topics: Vec<Topic> = Vec::new();
        proof {
            assert(names_distinct(topics@));
        }
        std::mem::swap(&mut topics, &mut self.topics);
        let ghost before = topics@;
        topics.push(topic);
        proof {
            assert(topics@.drop_last() =~= before);
            assert forall|a: int, b: int| 0 <= a < b < topics@.len() implies
                #[trigger] topics@[a].name@ != #[trigger] topics@[b].name@ by {
                if b == topics@.len() - 1 {
                    assert(topics@[a] == before[a]);
                } else {
                    assert(topics@[a] == before[a] && topics@[b] == before[b]);
                }
            }
        }
        self.topics = topics;
    }

    /// The topic registered under `name`.
    pub fn get_topic(&self, name: &str) -> (t: Option<&Topic>)
        ensures
            match t {
                Some(t) => self@.contains_key(name@) && t.name@ == name@
                    && self@[name@] == topic_entry(*t),
                None => !self@.contains_key(name@),
            },
    {
        proof {
            use_type_invariant(self);
            lemma_topic_map_lookup(self.topics@);
        }
        let key = chars_of(name);
        match self.position(&key) {
            Some(i) => Some(&self.topics[i]),
            None => None,
        }
    }

    /// Every registered topic, once each, sorted by name.
    pub fn list_topics(&self) -> (listed: Vec<&Topic>)
        ensures
            forall|i: int| 0 <= i < listed@.len() ==> self@.contains_key(#[trigger] listed@[i].name@)
                && self@[listed@[i].name@] == topic_entry(*listed@[i]),
            forall|k: Seq<char>| #[trigger] self@.contains_key(k) ==>
                exists|i: int| 0 <= i < listed@.len() && listed@[i].name@ == k,
            forall|i: int, j: int| 0 <= i < j < listed@.len() ==>
                lex_lt(#[trigger] listed@[i].name@, #[trigger] listed@[j].name@),
            listed@.len() == self@.dom().len(),
    {
        proof {
            use_type_invariant(self);
            lemma_topic_map_lookup(self.topics@);
            lemma_topic_map_size(self.topics@);
        }
        let names = self.name_chars();
        let order = sorted_order(&names);
        let mut listed: Vec<&Topic> = Vec::new();
        let mut i: usize = 0;
        while i < order.len()
            invariant
                i <= order@.len(),
                order@.len() == self.topics@.len(),
                names@.len() == self.topics@.len(),
                forall|j: int| 0 <= j < names@.len() ==> #[trigger] names@[j]@ == self.topics@[j].name@,
                forall|a: int| 0 <= a < order@.len() ==> #[trigger] order@[a] < names@.len(),
                listed@.len() == i,
                forall|a: int| 0 <= a < i ==> #[trigger] listed@[a] == &self.topics@[order@[a] as int],
            decreases order@.len() - i,
        {
            listed.push(&self.topics[order[i]]);
            i = i + 1;
        }
        proof {
            assert forall|a: int| 0 <= a < listed@.len() implies self@.contains_key(#[trigger] listed@[a].name@)
                && self@[listed@[a].name@] == topic_entry(*listed@[a]) by {
                assert(listed@[a] == &self.topics@[order@[a] as int]);
                assert(self@.contains_key(self.topics@[order@[a] as int].name@));
            }
            assert forall|key: Seq<char>| #[trigger] self@.contains_key(key) implies
                exists|a: int| 0 <= a < listed@.len() && listed@[a].name@ == key by {
                let j = choose|j: int| 0 <= j < self.topics@.len() && self.topics@[j].name@ == key;
                assert(holds_index(order@, j));
                let a = choose|a: int| 0 <= a < order@.len() && order@[a] == j;
                assert(listed@[a] == &self.topics@[order@[a] as int]);
            }
            assert forall|a: int, b: int| 0 <= a < b < listed@.len() implies
                lex_lt(#[trigger] listed@[a].name@, #[trigger] listed@[b].name@) by {
                assert(listed@[a] == &self.topics@[order@[a] as int]);
                assert(listed@[b] == &self.topics@[order@[b] as int]);
                let views = names@.map_values(|n: Vec<char>| n@);
                assert(views[order@[a] as int] == names@[order@[a] as int]@);
                assert(views[order@[b] as int] == names@[order@[b] as int]@);
                assert(names@[order@[a] as int]@ == self.topics@[order@[a] as int].name@);
                assert(names@[order@[b] as int]@ == self.topics@[order@[b] as int].name@);
            }
        }
        listed
    }

    /// The characters of each topic's name, in registration order.
    fn name_chars(&self) -> (names: Vec<Vec<char>>)
        ensures
            names@.len() == self.topics@.len(),
            forall|j: int| 0 <= j < names@.len() ==> #[trigger] names@[j]@ == self.topics@[j].name@,
    {
        let mut names: Vec<Vec<char>> = Vec::new();
        let mut j: usize = 0;
        while j < self.topics.len()
            invariant
                j <= self.topics@.len(),
                names@.len() == j,
                forall|a: int| 0 <= a < j ==> #[trigger] names@[a]@ == self.topics@[a].name@,
            decreases self.topics@.len() - j,
        {
            names.push(chars_of(self.topics[j].name.as_str()));
            j = j + 1;
        }
        names
    }
}

/// The names of `order` are strictly increasing.
pub open spec fn increasing(names: Seq<Seq<char>>, order: Seq<usize>) -> bool {
    forall|a: int, b: int| 0 <= a < b < order.len() ==>
        lex_lt(#[trigger] names[order[a] as int], #[trigger] names[order[b] as int])
}

/// Inserting `x` where every earlier name is smaller and the next one larger
/// keeps the names increasing.
proof fn lemma_insert_keeps_increasing(names: Seq<Seq<char>>, order: Seq<usize>, p: int, x: usize)
    requires
        increasing(names, order),
        0 <= p <= order.len(),
        forall|a: int| 0 <= a < order.len() ==> #[trigger] order[a] < names.len(),
        x < names.len(),
        forall|a: int| 0 <= a < p ==> lex_lt(#[trigger] names[order[a] as int], names[x as int]),
        p < order.len() ==> lex_lt(names[x as int], names[order[p] as int]),
    ensures
        increasing(names, order.insert(p, x)),
{
    let next = order.insert(p, x);
    assert forall|a: int, b: int| 0 <= a < b < next.len() implies
        lex_lt(#[trigger] names[next[a] as int], #[trigger] names[next[b] as int]) by {
        if b < p {
            assert(next[a] == order[a] && next[b] == order[b]);
        } else if a > p {
            assert(next[a] == order[a - 1] && next[b] == order[b - 1]);
        } else if a == p {
            assert(next[b] == order[b - 1]);
            if b - 1 > p {
                lemma_lex_lt_transitive(names[x as int], names[order[p] as int], names[order[b - 1] as int]);
            }
        } else if b == p {
            assert(next[a] == order[a]);
        } else {
            assert(next[a] == order[a] && next[b] == order[b - 1]);
            if b - 1 > p {
                lemma_lex_lt_transitive(names[x as int], names[order[p] as int], names[order[b - 1] as int]);
            }
            lemma_lex_lt_transitive(names[order[a] as int], names[x as int], names[order[b - 1] as int]);
        }
    }
}

/// Some position of `order` holds `j`.
pub open spec fn holds_index(order: Seq<usize>, j: int) -> bool {
    exists|a: int| 0 <= a < order.len() && order[a] == j
}

/// The positions of pairwise different names, ordered so that the names increase.
fn sorted_order(names: &Vec<Vec<char>>) -> (order: Vec<usize>)
    requires
        forall|a: int, b: int| 0 <= a < b < names@.len() ==> #[trigger] names@[a]@ != #[trigger] names@[b]@,
    ensures
        order@.len() == names@.len(),
        forall|a: int| 0 <= a < order@.len() ==> #[trigger] order@[a] < names@.len(),
        forall|j: int| 0 <= j < names@.len() ==> #[trigger] holds_index(order@, j),
        increasing(names@.map_values(|n: Vec<char>| n@), order@),
{
    let ghost views = names@.map_values(|n: Vec<char>| n@);
    let mut order: Vec<usize> = Vec::new();
    let mut k: usize = 0;
    while k < names.len()
        invariant
            k <= names@.len(),
            views == names@.map_values(|n: Vec<char>| n@),
            forall|a: int, b: int| 0 <= a < b < names@.len() ==> #[trigger] names@[a]@ != #[trigger] names@[b]@,
            order@.len() == k,
            forall|a: int| 0 <= a < k ==> #[trigger] order@[a] < k,
            forall|j: int| 0 <= j < k ==> #[trigger] holds_index(order@, j),
            increasing(views, order@),
        decreases names@.len() - k,
    {
        let mut p: usize = 0;
        while p < order.len() && lex_less(&names[order[p]], &names[k])
            invariant
                p <= order@.len(),
                order@.len() == k,
                k < names@.len(),
                views == names@.map_values(|n: Vec<char>| n@),
                forall|a: int| 0 <= a < k ==> #[trigger] order@[a] < k,
                forall|a: int| 0 <= a < p ==> lex_lt(#[trigger] views[order@[a] as int], views[k as int]),
            decreases order@.len() - p,
        {
            p = p + 1;
        }
        proof {
            if p < k {
                let q = order@[p as int];
                assert(names@[q as int]@ != names@[k as int]@);
                lemma_lex_lt_trichotomy(views[k as int], views[q as int]);
            }
            lemma_insert_keeps_increasing(views, order@, p as int, k);
        }
        let ghost before = order@;
        order.insert(p, k);
        proof {
            assert forall|j: int| 0 <= j < k + 1 implies #[trigger] holds_index(order@, j) by {
                if j == k {
                    assert(order@[p as int] == k);
                } else {
                    assert(holds_index(before, j));
                    let a = choose|a: int| 0 <= a < k && before[a] == j;
                    if a < p {
                        assert(order@[a] == before[a]);
                    } else {
                        assert(order@[a + 1] == before[a]);
                    }
                }
            }
        }
        k = k + 1;
    }
    order
}

/// A line with nothing but whitespace on it.
pub open spec fn is_blank(line: Seq<char>) -> bool {
    trim_seq(line).len() == 0
}

/// The index of the first non-blank line, or the number of lines.
pub open spec fn first_non_blank(ls: Seq<Seq<char>>) -> nat
    decreases ls.len(),
{
    if ls.len() == 0 || !is_blank(ls[0]) {
        0
    } else {
        1 + first_non_blank(ls.drop_first())
    }
}

/// The title and body a topic file's text holds, if it holds a topic: at
/// least two lines; the title is the first non-blank line, trimmed; the body
/// is every line after it from the next non-blank one on, joined by line
/// feeds, without trailing whitespace, and not empty.
pub open spec fn parse_topic_text(content: Seq<char>) -> Option<(Seq<char>, Seq<char>)> {
    let ls = lines_seq(content);
    let idx = first_non_blank(ls);
    if ls.len() < 2 || idx >= ls.len() {
        None
    } else {
        let rest = ls.skip(idx as int + 1);
        let body = trim_end_seq(join_seq(rest.skip(first_non_blank(rest) as int), seq!['\n']));
        if body.len() == 0 {
            None
        } else {
            Some((trim_seq(ls[idx as int]), body))
        }
    }
}

/// `title` and `body` are what the lines `ls` of a topic file hold, read
/// line by line: there are at least two lines; line `t` is the first that is
/// not blank and `title` is it trimmed; line `s` is the first after it that
/// is not blank (or the end); and `body` is every line from `s` to the end,
/// blank or not, in order, joined by line feeds, without trailing
/// whitespace, and not empty.
pub open spec fn reads_topic(ls: Seq<Seq<char>>, t: int, s: int, title: Seq<char>, body: Seq<char>) -> bool {
    &&& ls.len() >= 2
    &&& 0 <= t < s <= ls.len()
    &&& forall|i: int| 0 <= i < t ==> is_blank(#[trigger] ls[i])
    &&& !is_blank(ls[t])
    &&& forall|i: int| t < i < s ==> is_blank(#[trigger] ls[i])
    &&& s < ls.len() ==> !is_blank(ls[s])
    &&& title == trim_seq(ls[t])
    &&& body == trim_end_seq(join_seq(ls.subrange(s, ls.len() as int), seq!['\n']))
    &&& body.len() > 0
}

/// Blank lines up to `t` and a line at `t` that is not blank (or the end)
/// put the first non-blank line at `t`.
proof fn lemma_first_non_blank_at(ls: Seq<Seq<char>>, t: int)
    requires
        0 <= t <= ls.len(),
        forall|i: int| 0 <= i < t ==> is_blank(#[trigger] ls[i]),
        t < ls.len() ==> !is_blank(ls[t]),
    ensures
        first_non_blank(ls) == t,
    decreases t,
{
    if t > 0 {
        let rest = ls.drop_first();
        assert(is_blank(ls[0]));
        assert forall|i: int| 0 <= i < t - 1 implies is_blank(#[trigger] rest[i]) by {
            assert(rest[i] == ls[i + 1]);
        }
        if t - 1 < rest.len() {
            assert(rest[t - 1] == ls[t]);
        }
        lemma_first_non_blank_at(rest, t - 1);
    }
}

/// The first non-blank line: every line before it is blank, and it is not.
proof fn lemma_first_non_blank_is_first(ls: Seq<Seq<char>>)
    ensures
        first_non_blank(ls) <= ls.len(),
        forall|i: int| 0 <= i < first_non_blank(ls) ==> is_blank(#[trigger] ls[i]),
        first_non_blank(ls) < ls.len() ==> !is_blank(ls[first_non_blank(ls) as int]),
    decreases ls.len(),
{
    if ls.len() > 0 && is_blank(ls[0]) {
        let rest = ls.drop_first();
        lemma_first_non_blank_is_first(rest);
        assert forall|i: int| 0 <= i < first_non_blank(ls) implies is_blank(#[trigger] ls[i]) by {
            if i > 0 {
                assert(ls[i] == rest[i - 1]);
            }
        }
        if first_non_blank(ls) < ls.len() {
            assert(ls[first_non_blank(ls) as int] == rest[first_non_blank(rest) as int]);
        }
    }
}

/// A topic file's text holds the title and body that its lines hold, read
/// line by line (`reads_topic`), and nothing else: the title is its first
/// non-blank line, trimmed, and the body is every line after the title
/// from the next non-blank one on, blank lines within it kept, joined by
/// line feeds and without trailing whitespace.
pub proof fn law_topic_text_by_lines(content: Seq<char>)
    ensures
        parse_topic_text(content) matches Some((title, body)) ==> exists|t: int, s: int|
            reads_topic(lines_seq(content), t, s, title, body),
        forall|t: int, s: int, title: Seq<char>, body: Seq<char>|
            #[trigger] reads_topic(lines_seq(content), t, s, title, body) ==> parse_topic_text(content) == Some(
                (title, body),
            ),
{
    let ls = lines_seq(content);
    lemma_first_non_blank_is_first(ls);
    let idx = first_non_blank(ls) as int;
    if ls.len() >= 2 && idx < ls.len() {
        let rest = ls.skip(idx + 1);
        lemma_first_non_blank_is_first(rest);
        let s = idx + 1 + first_non_blank(rest);
        assert(rest.skip(first_non_blank(rest) as int) =~= ls.subrange(s, ls.len() as int));
        assert forall|i: int| idx < i < s implies is_blank(#[trigger] ls[i]) by {
            assert(ls[i] == rest[i - idx - 1]);
        }
        if s < ls.len() {
            assert(ls[s] == rest[first_non_blank(rest) as int]);
        }
        if let Some((title, body)) = parse_topic_text(content) {
            assert(reads_topic(ls, idx, s, title, body));
        }
    }
    assert forall|t: int, s: int, title: Seq<char>, body: Seq<char>|
        #[trigger] reads_topic(lines_seq(content), t, s, title, body) implies parse_topic_text(content) == Some(
            (title, body),
        ) by {
        lemma_first_non_blank_at(ls, t);
        let rest = ls.skip(t + 1);
        assert forall|i: int| 0 <= i < s - t - 1 implies is_blank(#[trigger] rest[i]) by {
            assert(rest[i] == ls[i + t + 1]);
        }
        if s - t - 1 < rest.len() {
            assert(rest[s - t - 1] == ls[s]);
        }
        lemma_first_non_blank_at(rest, s - t - 1);
        assert(rest.skip(s - t - 1) =~= ls.subrange(s, ls.len() as int));
    }
}

proof fn lemma_first_non_blank_bound(ls: Seq<Seq<char>>)
    ensures
        first_non_blank(ls) <= ls.len(),
    decreases ls.len(),
{
    if ls.len() > 0 && is_blank(ls[0]) {
        lemma_first_non_blank_bound(ls.drop_first());
    }
}

/// The index of the first line of `ls[from..]` that is not blank, counted from `from`.
fn find_non_blank(ls: &Vec<Vec<char>>, from: usize) -> (k: usize)
    requires
        from <= ls@.len(),
    ensures
        from <= k <= ls@.len(),
        k - from == first_non_blank(ls@.map_values(|l: Vec<char>| l@).skip(from as int)),
{
    let ghost views = ls@.map_values(|l: Vec<char>| l@);
    let mut k = from;
    while k < ls.len() && trim(&ls[k]).len() == 0
        invariant
            from <= k <= ls@.len(),
            views == ls@.map_values(|l: Vec<char>| l@),
            first_non_blank(views.skip(from as int)) == (k - from) + first_non_blank(views.skip(k as int)),
        decreases ls@.len() - k,
    {
        proof {
            assert(views.skip(k as int).drop_first() =~= views.skip(k + 1));
            assert(views.skip(k as int)[0] == ls@[k as int]@);
        }
        k = k + 1;
    }
    proof {
        if k < ls@.len() {
            assert(views.skip(k as int)[0] == ls@[k as int]@);
        }
    }
    k
}

/// The title and body of a topic file's text, or `None` when it holds no topic.
pub fn parse_topic_file(content: &str) -> (parsed: Option<(String, String)>)
    ensures
        match parsed {
            Some((title, body)) => parse_topic_text(content@) == Some((title@, body@)),
            None => parse_topic_text(content@) is None,
        },
        parsed matches Some((title, body)) ==> exists|t: int, s: int|
            reads_topic(lines_seq(content@), t, s, title@, body@),
        forall|t: int, s: int, title: Seq<char>, body: Seq<char>|
            #[trigger] reads_topic(lines_seq(content@), t, s, title, body) ==> (parsed matches Some((pt, pb))
                && pt@ == title && pb@ == body),
{
    let parsed = read_topic_file(content);
    proof {
        law_topic_text_by_lines(content@);
        if parsed is Some {
            let (title, body) = parsed->0;
            assert(parse_topic_text(content@) == Some((title@, body@)));
        }
    }
    parsed
}

/// The title and body of a topic file's text, read by its lines.
fn read_topic_file(content: &str) -> (parsed: Option<(String, String)>)
    ensures
        match parsed {
            Some((title, body)) => parse_topic_text(content@) == Some((title@, body@)),
            None => parse_topic_text(content@) is None,
        },
{
    let chars = chars_of(content);
    let ls = lines(&chars);
    let ghost views = ls@.map_values(|l: Vec<char>| l@);
    proof {
        assert(views.skip(0) =~= views);
    }
    if ls.len() < 2 {
        return None;
    }
    let idx = find_non_blank(&ls, 0);
    if idx >= ls.len() {
        return None;
    }
    let start = find_non_blank(&ls, idx + 1);
    let mut body_lines: Vec<Vec<char>> = Vec::new();
    let mut i = start;
    while i < ls.len()
        invariant
            idx + 1 <= start <= i <= ls@.len(),
            views == ls@.map_values(|l: Vec<char>| l@),
            body_lines@.map_values(|l: Vec<char>| l@) == views.subrange(start as int, i as int),
        decreases ls@.len() - i,
    {
        let ghost before = body_lines@;
        body_lines.push(slice_all(&ls[i]));
        proof {
            assert(body_lines@.map_values(|l: Vec<char>| l@)
                =~= before.map_values(|l: Vec<char>| l@).push(ls@[i as int]@));
            assert(views[i as int] == ls@[i as int]@);
            assert(views.subrange(start as int, i + 1)
                =~= views.subrange(start as int, i as int).push(views[i as int]));
        }
        i = i + 1;
    }
    let mut sep: Vec<char> = Vec::new();
    sep.push('\n');
    let joined = join(&body_lines, &sep);
    let body = trim_end(&joined);
    proof {
        let rest = views.skip(idx + 1);
        assert(views.skip(idx + 1).skip(first_non_blank(rest) as int) =~= views.subrange(start as int, ls@.len() as int));
        assert(seq!['\n'] =~= sep@);
    }
    if body.len() == 0 {
        return None;
    }
    let title = trim(&ls[idx]);
    Some((string_of(&title), string_of(&body)))
}

/// A copy of a character vector.
fn slice_all(s: &Vec<char>) -> (t: Vec<char>)
    ensures
        t@ == s@,
{
    let t = crate::text::slice_to_vec(s, 0, s.len());
    proof {
        assert(s@.subrange(0, s@.len() as int) =~= s@);
    }
    t
}

/// The format a file's extension names a topic in: `txt` is text, `md` is
/// Markdown, and any other file holds no topic.
pub open spec fn extension_topic_type(extension: Seq<char>) -> Option<TopicType> {
    if extension == "txt"@ {
        Some(TopicType::Text)
    } else if extension == "md"@ {
        Some(TopicType::Markdown)
    } else {
        None
    }
}

/// The topic format of a file with this extension, if it holds a topic.
pub fn topic_type_for_extension(extension: &str) -> (t: Option<TopicType>)
    ensures
        t == extension_topic_type(extension@),
{
    proof {
        reveal_strlit("txt");
        reveal_strlit("md");
    }
    let ext = chars_of(extension);
    let txt = chars_of("txt");
    let md = chars_of("md");
    if crate::text::chars_equal(&ext, &txt) {
        Some(TopicType::Text)
    } else if crate::text::chars_equal(&ext, &md) {
        Some(TopicType::Markdown)
    } else {
        None
    }
}

/// One entry of a topic directory, as the caller read it.
pub enum DirectoryEntry {
    /// The entry itself could not be read.
    Unreadable(IoFailure),
    /// Not a file, or a file whose extension names no topic format.
    Other,
    /// A file whose extension names a topic format, with its stem and the
    /// result of reading its text.
    TopicFile {
        /// The file name without its extension, if it has one in UTF-8.
        stem: Option<String>,
        /// The format the extension names.
        topic_type: TopicType,
        /// The file's text, or why it could not be read.
        content: Result<String, IoFailure>,
    },
}

/// A topic directory, as the caller found it.
pub enum DirectoryListing {
    /// Nothing exists at the path.
    Missing,
    /// Something exists at the path, but it is not a directory.
    NotADirectory,
    /// The directory could not be listed.
    Unreadable(IoFailure),
    /// The directory's entries, in the order they were listed.
    Entries(Vec<DirectoryEntry>),
}

/// What loading a directory's entries into a registry comes to.
pub enum TopicLoad {
    /// Every entry was read; the registry became this map.
    Loaded(Map<Seq<char>, (Seq<char>, Seq<char>, TopicType)>),
    /// An entry could not be read; the registry holds the topics loaded before it.
    Failed(Map<Seq<char>, (Seq<char>, Seq<char>, TopicType)>, IoFailure),
    /// A topic's name was already registered (the registry panics on it).
    Collision,
}

/// Loading `entries` in order into a registry that maps as `map`.
pub open spec fn load_topics(
    map: Map<Seq<char>, (Seq<char>, Seq<char>, TopicType)>,
    entries: Seq<DirectoryEntry>,
) -> TopicLoad
    decreases entries.len(),
{
    if entries.len() == 0 {
        TopicLoad::Loaded(map)
    } else {
        let rest = entries.drop_first();
        match entries[0] {
            DirectoryEntry::Unreadable(e) => TopicLoad::Failed(map, e),
            DirectoryEntry::Other => load_topics(map, rest),
            DirectoryEntry::TopicFile { stem, topic_type, content } => match content {
                Err(e) => TopicLoad::Failed(map, e),
                Ok(text) => match parse_topic_text(text@) {
                    None => load_topics(map, rest),
                    Some((title, body)) => {
                        let name = topic_name(title, opt_view(stem));
                        if map.contains_key(name) {
                            TopicLoad::Collision
                        } else {
                            load_topics(map.insert(name, (title, body, topic_type)), rest)
                        }
                    },
                },
            },
        }
    }
}

/// What `add_from_directory` comes to for a listing: an error for a missing
/// path or a path that is not a directory, else what loading its entries
/// comes to.
pub open spec fn directory_load(
    map: Map<Seq<char>, (Seq<char>, Seq<char>, TopicType)>,
    listing: DirectoryListing,
) -> TopicLoad {
    match listing {
        DirectoryListing::Unreadable(e) => TopicLoad::Failed(map, e),
        DirectoryListing::Entries(entries) => load_topics(map, entries@),
        _ => TopicLoad::Loaded(map),
    }
}

/// The registry ends as `load` says and the result says whether it failed.
pub open spec fn matches_load(
    load: TopicLoad,
    after: Map<Seq<char>, (Seq<char>, Seq<char>, TopicType)>,
    result: Result<(), IoFailure>,
) -> bool {
    match load {
        TopicLoad::Loaded(m) => after == m && result is Ok,
        TopicLoad::Failed(m, e) => after == m && result == Err::<(), IoFailure>(e),
        TopicLoad::Collision => false,
    }
}

impl TopicRegistry {
    /// Load each entry in order, stopping at the first that cannot be read.
    fn load_entries(&mut self, entries: Vec<DirectoryEntry>) -> (r: Result<(), IoFailure>)
        requires
            !(load_topics(old(self)@, entries@) is Collision),
        ensures
            matches_load(load_topics(old(self)@, entries@), final(self)@, r),
    {
        let ghost all = entries@;
        let mut remaining = entries;
        while remaining.len() > 0
            invariant
                all == entries@,
                load_topics(old(self)@, all) == load_topics(self@, remaining@),
                !(load_topics(self@, remaining@) is Collision),
            decreases remaining@.len(),
        {
            let ghost before = remaining@;
            let entry = remaining.remove(0);
            proof {
                assert(before[0] == entry);
                assert(before.drop_first() =~= remaining@);
            }
            match entry {
                DirectoryEntry::Unreadable(e) => {
                    proof {
                        assert(load_topics(self@, before) == TopicLoad::Failed(self@, e));
                    }
                    return Err(e);
                },
                DirectoryEntry::Other => {},
                DirectoryEntry::TopicFile { stem, topic_type, content } => match content {
                    Err(e) => {
                        proof {
                            assert(before[0] matches DirectoryEntry::TopicFile { content, .. } && content == Err::<String, IoFailure>(e));
                            assert(load_topics(self@, before) == TopicLoad::Failed(self@, e));
                        }
                        return Err(e);
                    },
                    Ok(text) => match parse_topic_file(text.as_str()) {
                        None => {},
                        Some((title, body)) => {
                            let topic = Topic::new(title.as_str(), body.as_str(), topic_type, stem);
                            self.add_topic(topic);
                        },
                    },
                },
            }
        }
        Ok(())
    }

    /// Load the topics of a directory: each `.txt` or `.md` file whose text
    /// holds a title and a body. A path where nothing exists is a `NotFound`
    /// error and one that is not a directory an `InvalidInput` error; an
    /// entry that cannot be read stops the load with its error, keeping the
    /// topics loaded before it. A topic whose name is taken is a collision,
    /// on which the registry panics; callers leave that input out.
    pub fn add_from_directory(&mut self, path: &str, listing: DirectoryListing) -> (r: Result<(), IoFailure>)
        requires
            !(directory_load(old(self)@, listing) is Collision),
        ensures
            match listing {
                DirectoryListing::Missing => final(self)@ == old(self)@ && r is Err
                    && r->Err_0.kind == IoErrorKind::NotFound
                    && r->Err_0.message@ == "Directory not found: "@ + path@,
                DirectoryListing::NotADirectory => final(self)@ == old(self)@ && r is Err
                    && r->Err_0.kind == IoErrorKind::InvalidInput
                    && r->Err_0.message@ == "Path is not a directory: "@ + path@,
                _ => matches_load(directory_load(old(self)@, listing), final(self)@, r),
            },
    {
        match listing {
            DirectoryListing::Missing => {
                Err(IoFailure::new(IoErrorKind::NotFound, crate::text::concat("Directory not found: ", path)))
            },
            DirectoryListing::NotADirectory => {
                Err(IoFailure::new(IoErrorKind::InvalidInput, crate::text::concat("Path is not a directory: ", path)))
            },
            DirectoryListing::Unreadable(e) => Err(e),
            DirectoryListing::Entries(entries) => self.load_entries(entries),
        }
    }

    /// Whether loading the listing would register a topic under a name that
    /// is already taken: by a topic registered before, or by one the same
    /// listing loads earlier. The load stops at the first entry that cannot
    /// be read, so names after it never collide.
    pub fn directory_collides(&self, listing: &DirectoryListing) -> (b: bool)
        ensures
            b == (directory_load(self@, *listing) is Collision),
    {
        match listing {
            DirectoryListing::Entries(entries) => self.entries_collide(entries),
            _ => false,
        }
    }

    /// Whether loading `entries` in order would hit a taken name.
    fn entries_collide(&self, entries: &Vec<DirectoryEntry>) -> (b: bool)
        ensures
            b == (load_topics(self@, entries@) is Collision),
    {
        let mut added: Vec<String> = Vec::new();
        let ghost mut m = self@;
        let mut i: usize = 0;
        proof {
            assert(entries@.skip(0) =~= entries@);
        }
        while i < entries.len()
            invariant
                i <= entries@.len(),
                load_topics(self@, entries@) == load_topics(m, entries@.skip(i as int)),
                forall|k: Seq<char>| #[trigger] m.contains_key(k) <==> (self@.contains_key(k)
                    || exists|j: int| 0 <= j < added@.len() && added@[j]@ == k),
            decreases entries@.len() - i,
        {
            let ghost rest = entries@.skip(i as int);
            proof {
                assert(rest[0] == entries@[i as int]);
                assert(rest.drop_first() =~= entries@.skip(i + 1));
            }
            match &entries[i] {
                DirectoryEntry::Unreadable(_) => {
                    return false;
                },
                DirectoryEntry::Other => {},
                DirectoryEntry::TopicFile { stem, topic_type, content } => match content {
                    Err(_) => {
                        return false;
                    },
                    Ok(text) => match parse_topic_file(text.as_str()) {
                        None => {},
                        Some((title, body)) => {
                            let given = match stem {
                                Some(n) => Some(n.clone()),
                                None => None,
                            };
                            let topic = Topic::new(title.as_str(), body.as_str(), *topic_type, given);
                            let taken_before = self.get_topic(topic.name.as_str()).is_some();
                            let mut taken_here = false;
                            let mut j: usize = 0;
                            while j < added.len()
                                invariant
                                    j <= added@.len(),
                                    taken_here == exists|a: int| 0 <= a < j && added@[a]@ == topic.name@,
                                decreases added@.len() - j,
                            {
                                if added[j] == topic.name {
                                    taken_here = true;
                                }
                                j = j + 1;
                            }
                            if taken_before || taken_here {
                                proof {
                                    assert(m.contains_key(topic.name@));
                                }
                                return true;
                            }
                            proof {
                                m = m.insert(topic.name@, (title@, body@, *topic_type));
                            }
                            let ghost before = added@;
                            added.push(topic.name);
                            proof {
                                assert forall|k: Seq<char>| #[trigger] m.contains_key(k) <==> (self@.contains_key(k)
                                    || exists|a: int| 0 <= a < added@.len() && added@[a]@ == k) by {
                                    if exists|a: int| 0 <= a < added@.len() && added@[a]@ == k {
                                        let a = choose|a: int| 0 <= a < added@.len() && added@[a]@ == k;
                                        if a < before.len() {
                                            assert(before[a] == added@[a]);
                                        }
                                    }
                                    if exists|a: int| 0 <= a < before.len() && before[a]@ == k {
                                        let a = choose|a: int| 0 <= a < before.len() && before[a]@ == k;
                                        assert(added@[a] == before[a]);
                                    }
                                    if k == added@.last()@ {
                                        assert(added@[added@.len() - 1]@ == k);
                                    }
                                }
                            }
                        },
                    },
                },
            }
            i = i + 1;
        }
        proof {
            assert(entries@.skip(entries@.len() as int) =~= Seq::<DirectoryEntry>::empty());
        }
        false
    }

    /// Like `add_from_directory`, but a path where no directory exists loads
    /// nothing and succeeds.
    pub fn add_from_directory_if_exists(&mut self, listing: DirectoryListing) -> (r: Result<(), IoFailure>)
        requires
            !(directory_load(old(self)@, listing) is Collision),
        ensures
            matches_load(directory_load(old(self)@, listing), final(self)@, r),
    {
        match listing {
            DirectoryListing::Missing => Ok(()),
            DirectoryListing::NotADirectory => Ok(()),
            DirectoryListing::Unreadable(e) => Err(e),
            DirectoryListing::Entries(entries) => self.load_entries(entries),
        }
    }
}


/// How topic pages and the topics list are rendered.
#[derive(Debug, Clone, Default)]
pub struct TopicRenderConfig {
    /// A custom template for a topic page; the default one when `None`.
    pub topic_template: Option<String>,
    /// A custom template for the topics list; the default one when `None`.
    pub list_template: Option<String>,
    /// The representation to render in; the human one when `None`.
    pub output_mode: Option<Representation>,
    /// Whether the rendered page carries escape sequences.
    pub color: ColorPolicy,
}

/// What a topic page renders: the topic's title and content.
#[derive(Debug, Clone)]
pub struct TopicData {
    /// The topic's title.
    pub title: String,
    /// The topic's content.
    pub content: String,
}

/// What a topic page for `topic` renders.
pub fn topic_data(topic: &Topic) -> (d: TopicData)
    ensures
        d.title@ == topic.title@,
        d.content@ == topic.content@,
{
    TopicData { title: topic.title.clone(), content: topic.content.clone() }
}

/// One entry of the topics list.
#[derive(Debug, Clone)]
pub struct TopicListItem {
    /// The name the topic is looked up by.
    pub name: String,
    /// The topic's title.
    pub title: String,
}

/// What the topics list renders: its usage line and the topics.
#[derive(Debug, Clone)]
pub struct TopicsListData {
    /// The usage line: the prefix and `<topic>`.
    pub usage: String,
    /// Every registered topic, sorted by name.
    pub topics: Vec<TopicListItem>,
}

/// `items` lists the registry's topics: each entry names a registered topic
/// and carries its title, every topic has an entry, and the names stand in
/// strictly increasing order.
pub open spec fn lists_topics(registry: Map<Seq<char>, (Seq<char>, Seq<char>, TopicType)>, items: Seq<TopicListItem>) -> bool {
    &&& forall|i: int| 0 <= i < items.len() ==> registry.contains_key(#[trigger] items[i].name@)
        && registry[items[i].name@].0 == items[i].title@
    &&& forall|k: Seq<char>| #[trigger] registry.contains_key(k) ==>
        exists|i: int| 0 <= i < items.len() && items[i].name@ == k
    &&& forall|i: int, j: int| 0 <= i < j < items.len() ==>
        lex_lt(#[trigger] items[i].name@, #[trigger] items[j].name@)
}

impl TopicRegistry {
    /// Every registered topic's name and title, sorted by name.
    pub fn topic_list_items(&self) -> (items: Vec<TopicListItem>)
        ensures
            lists_topics(self@, items@),
    {
        let listed = self.list_topics();
        let mut items: Vec<TopicListItem> = Vec::new();
        let mut i: usize = 0;
        while i < listed.len()
            invariant
                i <= listed@.len(),
                items@.len() == i,
                forall|j: int| 0 <= j < i ==> #[trigger] items@[j].name@ == listed@[j].name@
                    && items@[j].title@ == listed@[j].title@,
            decreases listed@.len() - i,
        {
            let t = listed[i];
            items.push(TopicListItem { name: t.name.clone(), title: t.title.clone() });
            i = i + 1;
        }
        proof {
            assert forall|k: Seq<char>| #[trigger] self@.contains_key(k) implies
                exists|j: int| 0 <= j < items@.len() && items@[j].name@ == k by {
                let j = choose|j: int| 0 <= j < listed@.len() && listed@[j].name@ == k;
                assert(items@[j].name@ == listed@[j].name@);
            }
            assert forall|a: int, b: int| 0 <= a < b < items@.len() implies
                lex_lt(#[trigger] items@[a].name@, #[trigger] items@[b].name@) by {
                assert(items@[a].name@ == listed@[a].name@ && items@[b].name@ == listed@[b].name@);
            }
            assert forall|a: int| 0 <= a < items@.len() implies self@.contains_key(#[trigger] items@[a].name@)
                && self@[items@[a].name@].0 == items@[a].title@ by {
                assert(items@[a].name@ == listed@[a].name@);
            }
        }
        items
    }

    /// What the topics list renders: `usage_prefix` followed by ` <topic>`,
    /// and every registered topic's name and title, sorted by name.
    pub fn topics_list_data(&self, usage_prefix: &str) -> (d: TopicsListData)
        ensures
            d.usage@ == usage_prefix@ + " <topic>"@,
            lists_topics(self@, d.topics@),
    {
        TopicsListData { usage: concat(usage_prefix, " <topic>"), topics: self.topic_list_items() }
    }
}


/// What a read gives back of a write: a topic that was added is found under
/// its name with its title, content and format, and every other name keeps
/// what it had.
pub proof fn law_added_topic_is_found(
    before: Map<Seq<char>, (Seq<char>, Seq<char>, TopicType)>,
    after: Map<Seq<char>, (Seq<char>, Seq<char>, TopicType)>,
    topic: Topic,
    other: Seq<char>,
)
    requires
        after == before.insert(topic.name@, topic_entry(topic)),
        other != topic.name@,
    ensures
        after.contains_key(topic.name@),
        after[topic.name@] == topic_entry(topic),
        after.contains_key(other) == before.contains_key(other),
        before.contains_key(other) ==> after[other] == before[other],
{
}

} // verus!
