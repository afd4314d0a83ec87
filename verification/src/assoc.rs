//! Facts about association lists: a sequence of key/value pairs read as a
//! map in which a later pair for a key wins over an earlier one.

use vstd::prelude::*;

verus! {

/// The map that a sequence of pairs denotes (later pairs win).
pub open spec fn fold_map<K, V>(s: Seq<(K, V)>) -> Map<K, V>
    decreases s.len(),
{
    if s.len() == 0 {
        Map::empty()
    } else {
        fold_map(s.drop_last()).insert(s.last().0, s.last().1)
    }
}

/// No key occurs twice.
pub open spec fn keys_unique<K, V>(s: Seq<(K, V)>) -> bool {
    forall|i: int, j: int| 0 <= i < s.len() && 0 <= j < s.len() && i != j ==> s[i].0 != s[j].0
}

/// A key is in the denoted map exactly when some pair holds it.
pub proof fn lemma_fold_dom<K, V>(s: Seq<(K, V)>, k: K)
    ensures
        fold_map(s).contains_key(k) <==> exists|i: int| 0 <= i < s.len() && s[i].0 == k,
    decreases s.len(),
{
    if s.len() > 0 {
        lemma_fold_dom(s.drop_last(), k);
        if fold_map(s).contains_key(k) && s.last().0 != k {
            let i = choose|i: int| 0 <= i < s.len() - 1 && s.drop_last()[i].0 == k;
            assert(s[i].0 == k);
        }
        if exists|i: int| 0 <= i < s.len() && s[i].0 == k {
            let i = choose|i: int| 0 <= i < s.len() && s[i].0 == k;
            if i < s.len() - 1 {
                assert(s.drop_last()[i].0 == k);
            }
        }
    }
}

/// With unique keys, each pair's value is what the map holds for its key.
pub proof fn lemma_fold_index<K, V>(s: Seq<(K, V)>, i: int)
    requires
        keys_unique(s),
        0 <= i < s.len(),
    ensures
        fold_map(s).contains_key(s[i].0),
        fold_map(s)[s[i].0] == s[i].1,
    decreases s.len(),
{
    if i < s.len() - 1 {
        assert(keys_unique(s.drop_last()));
        lemma_fold_index(s.drop_last(), i);
        assert(s.drop_last()[i] == s[i]);
    }
}

/// With unique keys, replacing the value of a pair updates the map at that key.
pub proof fn lemma_fold_update<K, V>(s: Seq<(K, V)>, i: int, v: V)
    requires
        keys_unique(s),
        0 <= i < s.len(),
    ensures
        fold_map(s.update(i, (s[i].0, v))) == fold_map(s).insert(s[i].0, v),
        keys_unique(s.update(i, (s[i].0, v))),
    decreases s.len(),
{
    let t = s.update(i, (s[i].0, v));
    if i == s.len() - 1 {
        assert(t.drop_last() =~= s.drop_last());
        assert(fold_map(t) =~= fold_map(s).insert(s[i].0, v));
    } else {
        assert(keys_unique(s.drop_last()));
        lemma_fold_update(s.drop_last(), i, v);
        assert(t.drop_last() =~= s.drop_last().update(i, (s[i].0, v)));
        assert(s.last().0 != s[i].0);
        assert(fold_map(t) =~= fold_map(s).insert(s[i].0, v));
    }
}

/// Appending a pair with a fresh key keeps keys unique.
pub proof fn lemma_push_unique<K, V>(s: Seq<(K, V)>, k: K, v: V)
    requires
        keys_unique(s),
        !fold_map(s).contains_key(k),
    ensures
        keys_unique(s.push((k, v))),
        fold_map(s.push((k, v))) == fold_map(s).insert(k, v),
{
    lemma_fold_dom(s, k);
    assert(s.push((k, v)).drop_last() =~= s);
}

/// The denoted map has finitely many keys.
pub proof fn lemma_fold_finite<K, V>(s: Seq<(K, V)>)
    ensures
        fold_map(s).dom().finite(),
    decreases s.len(),
{
    if s.len() > 0 {
        lemma_fold_finite(s.drop_last());
    }
}

} // verus!
