//! Association-list reasoning: the mathematical `Map` denoted by a
//! sequence of key/value pairs with distinct keys, and how that map moves
//! under the point updates the executable code performs.
//!
//! Both the pipe-relay handle table and the in-memory storage model keep
//! their entries as vectors and state their contracts over `assoc_map` of
//! those vectors.

use vstd::prelude::*;

verus! {

/// The map denoted by a pair sequence; later pairs win, though users keep
/// keys distinct so the question does not arise.
pub open spec fn assoc_map<K, V>(s: Seq<(K, V)>) -> Map<K, V>
    decreases s.len(),
{
    if s.len() == 0 {
        Map::empty()
    } else {
        assoc_map(s.drop_last()).insert(s.last().0, s.last().1)
    }
}

/// Whether no two pairs share a key.
pub open spec fn distinct_keys<K, V>(s: Seq<(K, V)>) -> bool {
    forall|i: int, j: int| 0 <= i < j < s.len() ==> (#[trigger] s[i]).0 != (#[trigger] s[j]).0
}

/// A key is in the map exactly when some pair carries it.
pub proof fn lemma_assoc_contains<K, V>(s: Seq<(K, V)>, k: K)
    ensures
        assoc_map(s).contains_key(k) <==> exists|i: int|
            0 <= i < s.len() && (#[trigger] s[i]).0 == k,
    decreases s.len(),
{
    if s.len() > 0 {
        lemma_assoc_contains(s.drop_last(), k);
        if s.last().0 == k {
            assert(s[s.len() - 1].0 == k);
        } else if assoc_map(s).contains_key(k) {
            let i = choose|i: int| 0 <= i < s.drop_last().len() && (#[trigger] s.drop_last()[i]).0
                == k;
            assert(s[i].0 == k);
        } else {
            assert(forall|i: int|
                0 <= i < s.len() - 1 ==> (#[trigger] s[i]) == s.drop_last()[i]);
        }
    }
}

/// With distinct keys, the pair at `i` gives the map's value at its key.
pub proof fn lemma_assoc_get<K, V>(s: Seq<(K, V)>, i: int)
    requires
        distinct_keys(s),
        0 <= i < s.len(),
    ensures
        assoc_map(s).contains_key(s[i].0),
        assoc_map(s)[s[i].0] == s[i].1,
    decreases s.len(),
{
    if i == s.len() - 1 {
        lemma_assoc_contains(s, s[i].0);
    } else {
        assert(forall|j: int| 0 <= j < s.len() - 1 ==> (#[trigger] s[j]) == s.drop_last()[j]);
        lemma_assoc_get(s.drop_last(), i);
        assert(s[s.len() - 1].0 != s[i].0);
    }
}

/// With distinct keys, updating the pair at `i` updates the map at its
/// key and nothing else.
pub proof fn lemma_assoc_update<K, V>(s: Seq<(K, V)>, i: int, v: V)
    requires
        distinct_keys(s),
        0 <= i < s.len(),
    ensures
        assoc_map(s.update(i, (s[i].0, v))) == assoc_map(s).insert(s[i].0, v),
        distinct_keys(s.update(i, (s[i].0, v))),
    decreases s.len(),
{
    let k = s[i].0;
    let t = s.update(i, (k, v));
    assert(forall|j: int| 0 <= j < s.len() && j != i ==> (#[trigger] t[j]) == s[j]);
    if i == s.len() - 1 {
        assert(t.drop_last() =~= s.drop_last());
        assert(assoc_map(t) == assoc_map(s.drop_last()).insert(k, v));
        assert(assoc_map(s).insert(k, v) =~= assoc_map(s.drop_last()).insert(k, v));
    } else {
        assert(forall|j: int| 0 <= j < s.len() - 1 ==> (#[trigger] s[j]) == s.drop_last()[j]);
        assert(t.drop_last() =~= s.drop_last().update(i, (k, v)));
        lemma_assoc_update(s.drop_last(), i, v);
        assert(s.last().0 != k);
        assert(assoc_map(t) == assoc_map(s.drop_last()).insert(k, v).insert(
            s.last().0,
            s.last().1,
        ));
        assert(assoc_map(s.drop_last()).insert(k, v).insert(s.last().0, s.last().1)
            =~= assoc_map(s).insert(k, v));
    }
}

/// Appending a pair with a fresh key inserts it into the map and keeps
/// keys distinct.
pub proof fn lemma_assoc_push<K, V>(s: Seq<(K, V)>, k: K, v: V)
    requires
        distinct_keys(s),
        !assoc_map(s).contains_key(k),
    ensures
        assoc_map(s.push((k, v))) == assoc_map(s).insert(k, v),
        distinct_keys(s.push((k, v))),
{
    assert(s.push((k, v)).drop_last() =~= s);
    lemma_assoc_contains(s, k);
    assert(forall|i: int| 0 <= i < s.len() ==> (#[trigger] s.push((k, v))[i]) == s[i]);
}

/// With distinct keys, removing the pair at `i` removes the map entry at
/// its key and nothing else.
pub proof fn lemma_assoc_remove<K, V>(s: Seq<(K, V)>, i: int)
    requires
        distinct_keys(s),
        0 <= i < s.len(),
    ensures
        assoc_map(s.remove(i)) == assoc_map(s).remove(s[i].0),
        distinct_keys(s.remove(i)),
    decreases s.len(),
{
    let k = s[i].0;
    let t = s.remove(i);
    assert(forall|j: int| 0 <= j < i ==> (#[trigger] t[j]) == s[j]);
    assert(forall|j: int| i <= j < t.len() ==> (#[trigger] t[j]) == s[j + 1]);
    if i == s.len() - 1 {
        assert(t =~= s.drop_last());
        lemma_assoc_contains(s.drop_last(), k);
        assert(forall|j: int| 0 <= j < s.len() - 1 ==> (#[trigger] s.drop_last()[j]) == s[j]);
        assert(!assoc_map(s.drop_last()).contains_key(k));
        assert(assoc_map(s.drop_last()) =~= assoc_map(s.drop_last()).insert(k, s[i].1).remove(k));
    } else {
        assert(forall|j: int| 0 <= j < s.len() - 1 ==> (#[trigger] s[j]) == s.drop_last()[j]);
        lemma_assoc_remove(s.drop_last(), i);
        assert(t.drop_last() =~= s.drop_last().remove(i));
        assert(s.last().0 != k);
        assert(assoc_map(t) == assoc_map(s.drop_last()).remove(k).insert(
            s.last().0,
            s.last().1,
        ));
        assert(assoc_map(s.drop_last()).remove(k).insert(s.last().0, s.last().1)
            =~= assoc_map(s).remove(k));
    }
}

} // verus!
