//! A keyed store modelled as an association list.
//!
//! The registry and the subscription table both keep their entries in a
//! vector of key/value pairs with pairwise-distinct keys; this module gives
//! that representation its meaning as a `Map` and proves how the map changes
//! under the vector operations the stores use.

use vstd::prelude::*;

verus! {

/// The map that a sequence of key/value pairs denotes; a later entry for a
/// key shadows an earlier one (the stores keep keys distinct, so shadowing
/// never happens in practice).
pub open spec fn assoc_map<V>(s: Seq<(Seq<char>, V)>) -> Map<Seq<char>, V>
    decreases s.len(),
{
    if s.len() == 0 {
        Map::empty()
    } else {
        assoc_map(s.drop_last()).insert(s.last().0, s.last().1)
    }
}

/// Pairwise-distinct keys.
pub open spec fn distinct_keys<V>(s: Seq<(Seq<char>, V)>) -> bool {
    forall|i: int, j: int| 0 <= i < j < s.len() ==> s[i].0 != s[j].0
}

/// A key is in the denoted map exactly when some entry carries it.
pub proof fn lemma_assoc_contains<V>(s: Seq<(Seq<char>, V)>, k: Seq<char>)
    ensures
        assoc_map(s).contains_key(k) <==> (exists|i: int| 0 <= i < s.len() && s[i].0 == k),
    decreases s.len(),
{
    if s.len() == 0 {
    } else {
        let s0 = s.drop_last();
        lemma_assoc_contains(s0, k);
        if s.last().0 == k {
            assert(s[s.len() - 1].0 == k);
        } else if assoc_map(s0).contains_key(k) {
            let i = choose|i: int| 0 <= i < s0.len() && s0[i].0 == k;
            assert(s[i].0 == k);
        } else if exists|i: int| 0 <= i < s.len() && s[i].0 == k {
            let i = choose|i: int| 0 <= i < s.len() && s[i].0 == k;
            assert(i < s.len() - 1);
            assert(s0[i].0 == k);
        }
    }
}

/// With distinct keys, each entry's key maps to that entry's value.
pub proof fn lemma_assoc_index<V>(s: Seq<(Seq<char>, V)>, i: int)
    requires
        distinct_keys(s),
        0 <= i < s.len(),
    ensures
        assoc_map(s).contains_key(s[i].0),
        assoc_map(s)[s[i].0] == s[i].1,
    decreases s.len(),
{
    let s0 = s.drop_last();
    if i == s.len() - 1 {
    } else {
        assert(distinct_keys(s0));
        assert(s0[i] == s[i]);
        lemma_assoc_index(s0, i);
        assert(s[i].0 != s.last().0);
    }
}

/// Replacing the value of entry `i` inserts under that entry's key.
pub proof fn lemma_assoc_update<V>(s: Seq<(Seq<char>, V)>, i: int, v: V)
    requires
        distinct_keys(s),
        0 <= i < s.len(),
    ensures
        assoc_map(s.update(i, (s[i].0, v))) == assoc_map(s).insert(s[i].0, v),
    decreases s.len(),
{
    let s0 = s.drop_last();
    let t = s.update(i, (s[i].0, v));
    if i == s.len() - 1 {
        assert(t.drop_last() =~= s0);
        assert(t.last() == (s[i].0, v));
        assert(assoc_map(t) =~= assoc_map(s).insert(s[i].0, v));
    } else {
        assert(distinct_keys(s0));
        assert(s0[i] == s[i]);
        lemma_assoc_update(s0, i, v);
        assert(t.drop_last() =~= s0.update(i, (s[i].0, v)));
        assert(t.last() == s.last());
        assert(s[i].0 != s.last().0);
        assert(assoc_map(t) =~= assoc_map(s).insert(s[i].0, v));
    }
}

/// Removing entry `i` removes that entry's key from the map.
pub proof fn lemma_assoc_remove<V>(s: Seq<(Seq<char>, V)>, i: int)
    requires
        distinct_keys(s),
        0 <= i < s.len(),
    ensures
        assoc_map(s.remove(i)) == assoc_map(s).remove(s[i].0),
    decreases s.len(),
{
    let s0 = s.drop_last();
    let t = s.remove(i);
    if i == s.len() - 1 {
        assert(t =~= s0);
        lemma_assoc_contains(s0, s[i].0);
        assert(forall|j: int| 0 <= j < s0.len() ==> s0[j] == s[j] && s[j].0 != s[i].0);
        assert(!assoc_map(s0).contains_key(s[i].0));
        assert(assoc_map(t) =~= assoc_map(s).remove(s[i].0));
    } else {
        assert(distinct_keys(s0));
        assert(s0[i] == s[i]);
        lemma_assoc_remove(s0, i);
        assert(t.drop_last() =~= s0.remove(i));
        assert(t.last() == s.last());
        assert(s[i].0 != s.last().0);
        assert(assoc_map(t) =~= assoc_map(s).remove(s[i].0));
    }
}

/// Appending an entry inserts its key.
pub proof fn lemma_assoc_push<V>(s: Seq<(Seq<char>, V)>, k: Seq<char>, v: V)
    ensures
        assoc_map(s.push((k, v))) == assoc_map(s).insert(k, v),
{
    let t = s.push((k, v));
    assert(t.drop_last() =~= s);
    assert(t.last() == (k, v));
}

} // verus!
