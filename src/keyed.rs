//! A list of entries keyed by a string, read as a map. Both stores keep their
//! records in a `Vec` whose keys are pairwise distinct; this module relates
//! the list operations they perform to operations on the map.
use vstd::prelude::*;

verus! {

/// The map that a list of keyed entries stands for: a later entry shadows an
/// earlier one with the same key.
pub open spec fn entries_map<V>(s: Seq<(Seq<char>, V)>) -> Map<Seq<char>, V>
    decreases s.len(),
{
    if s.len() == 0 {
        Map::empty()
    } else {
        entries_map(s.drop_last()).insert(s.last().0, s.last().1)
    }
}

/// No two entries share a key.
pub open spec fn keys_unique<V>(s: Seq<(Seq<char>, V)>) -> bool {
    forall|i: int, j: int|
        0 <= i < s.len() && 0 <= j < s.len() && i != j ==> #[trigger] s[i].0 != #[trigger] s[j].0
}

/// A key is in the map exactly when some entry carries it.
pub proof fn lemma_entries_map_domain<V>(s: Seq<(Seq<char>, V)>, k: Seq<char>)
    ensures
        entries_map(s).contains_key(k) <==> exists|i: int| 0 <= i < s.len() && #[trigger] s[i].0 == k,
    decreases s.len(),
{
    if s.len() > 0 {
        let p = s.drop_last();
        lemma_entries_map_domain(p, k);
        if entries_map(s).contains_key(k) {
            if k == s.last().0 {
                assert(s[s.len() - 1].0 == k);
            } else {
                let i = choose|i: int| 0 <= i < p.len() && #[trigger] p[i].0 == k;
                assert(s[i].0 == k);
            }
        }
        if exists|i: int| 0 <= i < s.len() && #[trigger] s[i].0 == k {
            let i = choose|i: int| 0 <= i < s.len() && #[trigger] s[i].0 == k;
            if i < s.len() - 1 {
                assert(p[i].0 == k);
            }
        }
    }
}

/// With distinct keys, each entry is what the map holds under its key.
pub proof fn lemma_entries_map_index<V>(s: Seq<(Seq<char>, V)>, i: int)
    requires
        keys_unique(s),
        0 <= i < s.len(),
    ensures
        entries_map(s).contains_key(s[i].0),
        entries_map(s)[s[i].0] == s[i].1,
    decreases s.len(),
{
    if i < s.len() - 1 {
        let p = s.drop_last();
        assert(keys_unique(p)) by {
            assert forall|a: int, b: int|
                0 <= a < p.len() && 0 <= b < p.len() && a != b implies #[trigger] p[a].0
                != #[trigger] p[b].0 by {
                assert(p[a] == s[a] && p[b] == s[b]);
            }
        }
        lemma_entries_map_index(p, i);
        assert(p[i] == s[i]);
        assert(s[i].0 != s[s.len() - 1].0);
    }
}

/// Appending an entry whose key is new keeps the keys distinct and inserts it
/// into the map.
pub proof fn lemma_entries_map_push<V>(s: Seq<(Seq<char>, V)>, e: (Seq<char>, V))
    requires
        keys_unique(s),
        !entries_map(s).contains_key(e.0),
    ensures
        keys_unique(s.push(e)),
        entries_map(s.push(e)) == entries_map(s).insert(e.0, e.1),
{
    let t = s.push(e);
    assert(t.drop_last() =~= s);
    assert forall|a: int, b: int|
        0 <= a < t.len() && 0 <= b < t.len() && a != b implies #[trigger] t[a].0
        != #[trigger] t[b].0 by {
        if a == s.len() {
            lemma_entries_map_domain(s, e.0);
            assert(t[b] == s[b]);
        } else if b == s.len() {
            lemma_entries_map_domain(s, e.0);
            assert(t[a] == s[a]);
        } else {
            assert(t[a] == s[a] && t[b] == s[b]);
        }
    }
}

/// Removing one entry keeps the keys distinct and removes its key from the map.
pub proof fn lemma_entries_map_remove<V>(s: Seq<(Seq<char>, V)>, i: int)
    requires
        keys_unique(s),
        0 <= i < s.len(),
    ensures
        keys_unique(s.remove(i)),
        entries_map(s.remove(i)) == entries_map(s).remove(s[i].0),
    decreases s.len(),
{
    let k = s[i].0;
    let t = s.remove(i);
    assert forall|a: int, b: int|
        0 <= a < t.len() && 0 <= b < t.len() && a != b implies #[trigger] t[a].0
        != #[trigger] t[b].0 by {
        let a2 = if a < i { a } else { a + 1 };
        let b2 = if b < i { b } else { b + 1 };
        assert(t[a] == s[a2] && t[b] == s[b2]);
    }
    let p = s.drop_last();
    assert(keys_unique(p)) by {
        assert forall|a: int, b: int|
            0 <= a < p.len() && 0 <= b < p.len() && a != b implies #[trigger] p[a].0
            != #[trigger] p[b].0 by {
            assert(p[a] == s[a] && p[b] == s[b]);
        }
    }
    if i == s.len() - 1 {
        assert(t =~= p);
        lemma_entries_map_domain(p, k);
        if entries_map(p).contains_key(k) {
            let j = choose|j: int| 0 <= j < p.len() && #[trigger] p[j].0 == k;
            assert(s[j].0 == k);
        }
        assert(entries_map(t) =~= entries_map(s).remove(k));
    } else {
        assert(t.drop_last() =~= p.remove(i));
        assert(t.last() == s.last());
        assert(p[i] == s[i]);
        lemma_entries_map_remove(p, i);
        assert(s.last().0 != k);
        assert(entries_map(t) =~= entries_map(s).remove(k));
    }
}

/// With distinct keys, the map is finite and has one key per entry.
pub proof fn lemma_entries_map_len<V>(s: Seq<(Seq<char>, V)>)
    requires
        keys_unique(s),
    ensures
        entries_map(s).dom().finite(),
        entries_map(s).len() == s.len(),
    decreases s.len(),
{
    if s.len() > 0 {
        let p = s.drop_last();
        assert(keys_unique(p)) by {
            assert forall|a: int, b: int|
                0 <= a < p.len() && 0 <= b < p.len() && a != b implies #[trigger] p[a].0
                != #[trigger] p[b].0 by {
                assert(p[a] == s[a] && p[b] == s[b]);
            }
        }
        lemma_entries_map_len(p);
        lemma_entries_map_domain(p, s.last().0);
        if entries_map(p).contains_key(s.last().0) {
            let j = choose|j: int| 0 <= j < p.len() && #[trigger] p[j].0 == s.last().0;
            assert(s[j].0 == s[s.len() - 1].0);
        }
    }
}

} // verus!
