//! A small map from path components to values, kept as a vector of entries with
//! distinct keys. The mount table and the provider registry are built on it.

use vstd::prelude::*;

use crate::vfs::path::{comps_equal, comps_view};

verus! {

/// One entry: the components of a path and the value stored for it.
pub struct Keyed<V> {
    pub key: Vec<Vec<char>>,
    pub value: V,
}

pub open spec fn key_of<V>(e: Keyed<V>) -> Seq<Seq<char>> {
    comps_view(e.key@)
}

pub open spec fn distinct_keys<V>(s: Seq<Keyed<V>>) -> bool {
    forall|i: int, j: int| 0 <= i < j < s.len() ==> key_of(#[trigger] s[i]) != key_of(#[trigger] s[j])
}

/// The map the entries stand for.
pub open spec fn keyed_map<V>(s: Seq<Keyed<V>>) -> Map<Seq<Seq<char>>, V>
    decreases s.len(),
{
    if s.len() == 0 {
        Map::empty()
    } else {
        keyed_map(s.drop_last()).insert(key_of(s.last()), s.last().value)
    }
}

pub proof fn lemma_keyed_map<V>(s: Seq<Keyed<V>>)
    requires
        distinct_keys(s),
    ensures
        forall|k: Seq<Seq<char>>| #[trigger] keyed_map(s).dom().contains(k) <==> exists|i: int| 0 <= i < s.len() && key_of(s[i]) == k,
        forall|i: int| 0 <= i < s.len() ==> keyed_map(s)[key_of(#[trigger] s[i])] == s[i].value,
        keyed_map(s).dom().finite(),
        keyed_map(s).dom().len() == s.len(),
    decreases s.len(),
{
    if s.len() > 0 {
        let t = s.drop_last();
        assert(distinct_keys(t)) by {
            assert forall|i: int, j: int| 0 <= i < j < t.len() implies key_of(#[trigger] t[i]) != key_of(#[trigger] t[j]) by {
                assert(t[i] == s[i] && t[j] == s[j]);
            }
        }
        lemma_keyed_map(t);
        let last = s.last();
        assert(!keyed_map(t).dom().contains(key_of(last))) by {
            if keyed_map(t).dom().contains(key_of(last)) {
                let i = choose|i: int| 0 <= i < t.len() && key_of(t[i]) == key_of(last);
                assert(s[i] == t[i]);
                assert(key_of(s[i]) != key_of(s[s.len() - 1]));
            }
        }
        assert forall|k: Seq<Seq<char>>| #[trigger] keyed_map(s).dom().contains(k) <==> exists|i: int| 0 <= i < s.len() && key_of(s[i]) == k by {
            if keyed_map(s).dom().contains(k) {
                if k == key_of(last) {
                    assert(key_of(s[s.len() - 1]) == k);
                } else {
                    let i = choose|i: int| 0 <= i < t.len() && key_of(t[i]) == k;
                    assert(s[i] == t[i]);
                }
            }
            if exists|i: int| 0 <= i < s.len() && key_of(s[i]) == k {
                let i = choose|i: int| 0 <= i < s.len() && key_of(s[i]) == k;
                if i < s.len() - 1 {
                    assert(t[i] == s[i]);
                    assert(keyed_map(t).dom().contains(k));
                }
            }
        }
        assert forall|i: int| 0 <= i < s.len() implies keyed_map(s)[key_of(#[trigger] s[i])] == s[i].value by {
            if i < s.len() - 1 {
                assert(t[i] == s[i]);
                assert(key_of(s[i]) != key_of(s[s.len() - 1]));
                assert(keyed_map(t)[key_of(t[i])] == t[i].value);
            }
        }
    }
}

pub proof fn lemma_keyed_map_remove<V>(s: Seq<Keyed<V>>, i: int)
    requires
        distinct_keys(s),
        0 <= i < s.len(),
    ensures
        distinct_keys(s.remove(i)),
        keyed_map(s.remove(i)) == keyed_map(s).remove(key_of(s[i])),
        forall|j: int| 0 <= j < s.remove(i).len() ==> s.contains(#[trigger] s.remove(i)[j]),
{
    let r = s.remove(i);
    assert(forall|j: int| 0 <= j < r.len() ==> #[trigger] r[j] == if j < i { s[j] } else { s[j + 1] });
    assert(distinct_keys(r)) by {
        assert forall|a: int, b: int| 0 <= a < b < r.len() implies key_of(#[trigger] r[a]) != key_of(#[trigger] r[b]) by {
            let a2 = if a < i { a } else { a + 1 };
            let b2 = if b < i { b } else { b + 1 };
            assert(r[a] == s[a2] && r[b] == s[b2]);
            assert(a2 < b2);
        }
    }
    assert forall|j: int| 0 <= j < r.len() implies s.contains(#[trigger] r[j]) by {
        let j2 = if j < i { j } else { j + 1 };
        assert(r[j] == s[j2]);
    }
    lemma_keyed_map(s);
    lemma_keyed_map(r);
    let m = keyed_map(s).remove(key_of(s[i]));
    assert forall|k: Seq<Seq<char>>| #[trigger] keyed_map(r).dom().contains(k) <==> m.dom().contains(k) by {
        if keyed_map(r).dom().contains(k) {
            let j = choose|j: int| 0 <= j < r.len() && key_of(r[j]) == k;
            let j2 = if j < i { j } else { j + 1 };
            assert(r[j] == s[j2]);
            assert(key_of(s[j2]) != key_of(s[i]));
        }
        if m.dom().contains(k) {
            let j = choose|j: int| 0 <= j < s.len() && key_of(s[j]) == k;
            assert(j != i);
            let j2 = if j < i { j } else { j - 1 };
            assert(r[j2] == s[j]);
        }
    }
    assert forall|k: Seq<Seq<char>>| #[trigger] keyed_map(r).dom().contains(k) implies keyed_map(r)[k] == m[k] by {
        let j = choose|j: int| 0 <= j < r.len() && key_of(r[j]) == k;
        let j2 = if j < i { j } else { j + 1 };
        assert(r[j] == s[j2]);
        assert(keyed_map(r)[key_of(r[j])] == r[j].value);
        assert(keyed_map(s)[key_of(s[j2])] == s[j2].value);
    }
    assert(keyed_map(r) =~= m);
}

/// The position of the entry for `key`, if there is one.
pub fn find_key<V>(entries: &Vec<Keyed<V>>, key: &Vec<Vec<char>>) -> (r: Option<usize>)
    requires
        distinct_keys(entries@),
    ensures
        match r {
            Some(i) => i < entries@.len() && key_of(entries@[i as int]) == comps_view(key@) && keyed_map(
                entries@,
            ).dom().contains(comps_view(key@)),
            None => !keyed_map(entries@).dom().contains(comps_view(key@)),
        },
{
    proof {
        lemma_keyed_map(entries@);
    }
    let mut i: usize = 0;
    while i < entries.len()
        invariant
            distinct_keys(entries@),
            i <= entries@.len(),
            forall|j: int| 0 <= j < i ==> key_of(#[trigger] entries@[j]) != comps_view(key@),
        decreases entries@.len() - i,
    {
        if comps_equal(&entries[i].key, key) {
            assert(key_of(entries@[i as int]) == comps_view(key@));
            proof {
                lemma_keyed_map(entries@);
            }
            assert(keyed_map(entries@).dom().contains(comps_view(key@)));
            return Some(i);
        }
        i = i + 1;
    }
    None
}

/// Removes the entry at position `i`.
pub fn remove_at<V>(entries: &mut Vec<Keyed<V>>, i: usize)
    requires
        distinct_keys(old(entries)@),
        i < old(entries)@.len(),
    ensures
        distinct_keys(final(entries)@),
        keyed_map(final(entries)@) == keyed_map(old(entries)@).remove(key_of(old(entries)@[i as int])),
        forall|j: int| 0 <= j < final(entries)@.len() ==> old(entries)@.contains(#[trigger] final(entries)@[j]),
{
    proof {
        lemma_keyed_map_remove(entries@, i as int);
    }
    entries.remove(i);
}

/// Stores `value` under `key`, replacing the entry for an equal key.
pub fn put<V>(entries: &mut Vec<Keyed<V>>, entry: Keyed<V>)
    requires
        distinct_keys(old(entries)@),
    ensures
        distinct_keys(final(entries)@),
        keyed_map(final(entries)@) == keyed_map(old(entries)@).insert(key_of(entry), entry.value),
        forall|j: int| 0 <= j < final(entries)@.len() ==> old(entries)@.contains(#[trigger] final(entries)@[j])
            || final(entries)@[j] == entry,
{
    let ghost e = entry;
    let ghost start = entries@;
    match find_key(entries, &entry.key) {
        Some(i) => {
            remove_at(entries, i);
        },
        None => {},
    }
    let ghost before = entries@;
    let ghost m0 = keyed_map(before);
    proof {
        lemma_keyed_map(before);
        assert(!m0.dom().contains(comps_view(entry.key@)));
        assert(m0 == keyed_map(start).remove(comps_view(entry.key@)));
    }
    let ghost kv = entry.key@;
    let ghost value = entry.value;
    entries.push(entry);
    proof {
        let s = entries@;
        assert(s.drop_last() =~= before);
        assert(distinct_keys(s)) by {
            assert forall|a: int, b: int| 0 <= a < b < s.len() implies key_of(#[trigger] s[a]) != key_of(#[trigger] s[b]) by {
                if b == s.len() - 1 {
                    assert(s[a] == before[a]);
                    assert(m0.dom().contains(key_of(before[a])));
                } else {
                    assert(s[a] == before[a] && s[b] == before[b]);
                }
            }
        }
        assert(keyed_map(s) =~= keyed_map(start).insert(comps_view(kv), value));
        assert forall|j: int| 0 <= j < s.len() implies start.contains(#[trigger] s[j]) || s[j] == e by {
            if j < s.len() - 1 {
                assert(s[j] == before[j]);
                assert(before.contains(before[j]));
            }
        }
    }
}

} // verus!
