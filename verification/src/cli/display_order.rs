//! Display order: the help page lists subcommands and arguments by their
//! display order, keeping those with equal order in the order they were
//! defined (a stable sort by key).

use vstd::prelude::*;

verus! {

broadcast use vstd::seq_lib::group_to_multiset_ensures;

/// `x` put into `s` after the leading items whose key is not greater than
/// its own.
pub open spec fn keyed_insert<T>(s: Seq<(usize, T)>, x: (usize, T)) -> Seq<(usize, T)>
    decreases s.len(),
{
    if s.len() == 0 {
        seq![x]
    } else if s[0].0 <= x.0 {
        seq![s[0]] + keyed_insert(s.drop_first(), x)
    } else {
        seq![x] + s
    }
}

/// The items sorted by key, items with equal keys in their given order.
pub open spec fn keyed_sort<T>(s: Seq<(usize, T)>) -> Seq<(usize, T)>
    decreases s.len(),
{
    if s.len() == 0 {
        seq![]
    } else {
        keyed_insert(keyed_sort(s.drop_last()), s.last())
    }
}

/// The keys never decrease along the items.
pub open spec fn keys_ascending<T>(s: Seq<(usize, T)>) -> bool {
    forall|a: int, b: int| 0 <= a < b < s.len() ==> #[trigger] s[a].0 <= #[trigger] s[b].0
}

/// Where `keyed_insert` puts `x`: after the leading items whose key is not
/// greater than its own.
pub open spec fn insert_pos<T>(s: Seq<(usize, T)>, x: (usize, T)) -> int
    decreases s.len(),
{
    if s.len() == 0 {
        0
    } else if s[0].0 <= x.0 {
        1 + insert_pos(s.drop_first(), x)
    } else {
        0
    }
}

/// `keyed_insert` inserts at `insert_pos`, the first place whose item has a
/// greater key.
proof fn lemma_insert_pos<T>(s: Seq<(usize, T)>, x: (usize, T))
    ensures
        0 <= insert_pos(s, x) <= s.len(),
        keyed_insert(s, x) == s.insert(insert_pos(s, x), x),
        forall|a: int| 0 <= a < insert_pos(s, x) ==> #[trigger] s[a].0 <= x.0,
        insert_pos(s, x) < s.len() ==> s[insert_pos(s, x)].0 > x.0,
    decreases s.len(),
{
    if s.len() == 0 {
        assert(s.insert(0, x) =~= seq![x]);
    } else if s[0].0 <= x.0 {
        let t = s.drop_first();
        lemma_insert_pos(t, x);
        let p = insert_pos(t, x);
        assert(s.insert(p + 1, x) =~= seq![s[0]] + t.insert(p, x));
        assert forall|a: int| 0 <= a < p + 1 implies #[trigger] s[a].0 <= x.0 by {
            if a > 0 {
                assert(s[a] == t[a - 1]);
            }
        }
        if p + 1 < s.len() {
            assert(s[p + 1] == t[p]);
        }
    } else {
        assert(s.insert(0, x) =~= seq![x] + s);
    }
}

/// A place whose leading items all have keys not greater than `x`'s, and
/// whose item (if any) has a greater key, is `insert_pos`.
proof fn lemma_insert_pos_unique<T>(s: Seq<(usize, T)>, x: (usize, T), p: int)
    requires
        0 <= p <= s.len(),
        forall|a: int| 0 <= a < p ==> #[trigger] s[a].0 <= x.0,
        p < s.len() ==> s[p].0 > x.0,
    ensures
        insert_pos(s, x) == p,
    decreases s.len(),
{
    if s.len() > 0 && p > 0 {
        let t = s.drop_first();
        assert(s[0].0 <= x.0);
        assert forall|a: int| 0 <= a < p - 1 implies #[trigger] t[a].0 <= x.0 by {
            assert(t[a] == s[a + 1]);
        }
        if p - 1 < t.len() {
            assert(t[p - 1] == s[p]);
        }
        lemma_insert_pos_unique(t, x, p - 1);
    }
}

/// Inserting into items in key order keeps them in key order and adds the
/// one item.
pub proof fn lemma_keyed_insert<T>(s: Seq<(usize, T)>, x: (usize, T))
    requires
        keys_ascending(s),
    ensures
        keys_ascending(keyed_insert(s, x)),
        keyed_insert(s, x).to_multiset() == s.to_multiset().insert(x),
        keyed_insert(s, x).len() == s.len() + 1,
{
    lemma_insert_pos(s, x);
    let p = insert_pos(s, x);
    let r = keyed_insert(s, x);
    s.insert_ensures(p, x);
    assert forall|a: int, b: int| 0 <= a < b < r.len() implies #[trigger] r[a].0 <= #[trigger] r[b].0 by {
        if b < p {
            assert(r[a] == s[a] && r[b] == s[b]);
        } else if b == p {
            assert(r[a] == s[a]);
        } else if a < p {
            assert(r[a] == s[a] && r[b] == s[b - 1]);
        } else if a == p {
            assert(r[b] == s[b - 1]);
            if b - 1 > p {
                assert(s[p].0 <= s[b - 1].0);
            }
        } else {
            assert(r[a] == s[a - 1] && r[b] == s[b - 1]);
        }
    }
}

/// The sort puts the items in key order and keeps exactly the items given.
pub proof fn lemma_keyed_sort<T>(s: Seq<(usize, T)>)
    ensures
        keys_ascending(keyed_sort(s)),
        keyed_sort(s).to_multiset() == s.to_multiset(),
        keyed_sort(s).len() == s.len(),
    decreases s.len(),
{
    if s.len() == 0 {
        assert(keyed_sort(s) =~= s);
    } else {
        lemma_keyed_sort(s.drop_last());
        lemma_keyed_insert(keyed_sort(s.drop_last()), s.last());
        assert(s.drop_last().push(s.last()) =~= s);
    }
}

/// Put `x` among `sorted` after the items whose key is not greater than its own.
fn insert_by_key<T>(sorted: &mut Vec<(usize, T)>, x: (usize, T))
    ensures
        final(sorted)@ == keyed_insert(old(sorted)@, x),
{
    let mut p: usize = 0;
    while p < sorted.len() && sorted[p].0 <= x.0
        invariant
            p <= sorted@.len(),
            forall|a: int| 0 <= a < p ==> #[trigger] sorted@[a].0 <= x.0,
        decreases sorted@.len() - p,
    {
        p = p + 1;
    }
    proof {
        lemma_insert_pos_unique(sorted@, x, p as int);
        lemma_insert_pos(sorted@, x);
    }
    sorted.insert(p, x);
}

/// The items sorted by key, items with equal keys kept in their given order.
pub fn sort_by_key<T>(items: Vec<(usize, T)>) -> (sorted: Vec<(usize, T)>)
    ensures
        sorted@ == keyed_sort(items@),
{
    let ghost all = items@;
    let mut rest = items;
    let mut sorted: Vec<(usize, T)> = Vec::new();
    proof {
        assert(all.skip(0) =~= all);
    }
    while rest.len() > 0
        invariant
            rest@.len() <= all.len(),
            rest@ == all.skip(all.len() - rest@.len()),
            sorted@ == keyed_sort(all.take(all.len() - rest@.len())),
        decreases rest@.len(),
    {
        let ghost done = (all.len() - rest@.len()) as int;
        let item = rest.remove(0);
        proof {
            assert(all[done] == item);
            assert(all.take(done + 1).drop_last() =~= all.take(done));
            assert(rest@ =~= all.skip(done + 1));
        }
        insert_by_key(&mut sorted, item);
    }
    proof {
        assert(all.take(all.len() as int) =~= all);
    }
    sorted
}

} // verus!
