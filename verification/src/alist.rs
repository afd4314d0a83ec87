//! Association lists keyed by `u64`: lookup, put and remove, as used for
//! tables of watches and open devices.

use vstd::prelude::*;

verus! {

broadcast use vstd::seq_lib::group_filter_ensures;

/// The value of the first pair with key `k`.
pub open spec fn alist_get<V>(s: Seq<(u64, V)>, k: u64) -> Option<V>
    decreases s.len(),
{
    if s.len() == 0 {
        None
    } else if s[0].0 == k {
        Some(s[0].1)
    } else {
        alist_get(s.drop_first(), k)
    }
}

/// `s` with the first pair for `k` given value `v`, or `(k, v)` appended.
pub open spec fn alist_put<V>(s: Seq<(u64, V)>, k: u64, v: V) -> Seq<(u64, V)>
    decreases s.len(),
{
    if s.len() == 0 {
        seq![(k, v)]
    } else if s[0].0 == k {
        seq![(k, v)] + s.drop_first()
    } else {
        seq![s[0]] + alist_put(s.drop_first(), k, v)
    }
}

/// Whether a pair's key differs from `k`.
pub open spec fn key_is_not<V>(k: u64) -> spec_fn((u64, V)) -> bool {
    |p: (u64, V)| p.0 != k
}

/// `s` without the pairs for `k`.
pub open spec fn alist_remove<V>(s: Seq<(u64, V)>, k: u64) -> Seq<(u64, V)> {
    s.filter(key_is_not::<V>(k))
}

/// No key occurs twice.
pub open spec fn alist_unique<V>(s: Seq<(u64, V)>) -> bool {
    forall|i: int, j: int| 0 <= i < s.len() && 0 <= j < s.len() && i != j ==> s[i].0 != s[j].0
}

/// The first index with key `k` (or the length) determines get and put.
pub proof fn lemma_alist_at<V>(s: Seq<(u64, V)>, k: u64, v: V, i: int)
    requires
        0 <= i <= s.len(),
        forall|j: int| 0 <= j < i ==> s[j].0 != k,
        i < s.len() ==> s[i].0 == k,
    ensures
        i < s.len() ==> alist_get(s, k) == Some(s[i].1),
        i == s.len() ==> alist_get(s, k) is None,
        i < s.len() ==> alist_put(s, k, v) == s.update(i, (k, v)),
        i == s.len() ==> alist_put(s, k, v) == s.push((k, v)),
    decreases s.len(),
{
    if s.len() == 0 {
        assert(seq![(k, v)] =~= s.push((k, v)));
    } else if i == 0 {
        assert(seq![(k, v)] + s.drop_first() =~= s.update(0, (k, v)));
    } else {
        lemma_alist_at(s.drop_first(), k, v, i - 1);
        if i < s.len() {
            assert(seq![s[0]] + s.drop_first().update(i - 1, (k, v)) =~= s.update(i, (k, v)));
        } else {
            assert(seq![s[0]] + s.drop_first().push((k, v)) =~= s.push((k, v)));
        }
    }
}

/// Putting keeps keys unique.
pub proof fn lemma_alist_put_unique<V>(s: Seq<(u64, V)>, k: u64, v: V)
    requires
        alist_unique(s),
    ensures
        alist_unique(alist_put(s, k, v)),
        forall|j: u64| j != k ==> alist_get(alist_put(s, k, v), j) == alist_get(s, j),
        alist_get(alist_put(s, k, v), k) == Some(v),
    decreases s.len(),
{
    if s.len() > 0 {
        lemma_alist_put_unique(s.drop_first(), k, v);
        let r = alist_put(s, k, v);
        if s[0].0 == k {
            assert forall|j: u64| j != k implies alist_get(r, j) == alist_get(s, j) by {
                assert(r.drop_first() =~= s.drop_first());
                assert(alist_get(r, j) == alist_get(r.drop_first(), j));
                assert(alist_get(s, j) == alist_get(s.drop_first(), j));
            }
            assert(alist_unique(r)) by {
                assert forall|a: int, b: int| 0 <= a < r.len() && 0 <= b < r.len() && a != b implies r[a].0
                    != r[b].0 by {
                    if a > 0 && b > 0 {
                        assert(r[a] == s[a] && r[b] == s[b]);
                    } else if a == 0 {
                        assert(r[b] == s[b]);
                    } else {
                        assert(r[a] == s[a]);
                    }
                }
            }
        } else {
            let t = alist_put(s.drop_first(), k, v);
            assert(r == seq![s[0]] + t);
            assert(r.drop_first() =~= t);
            assert(r[0] == s[0]);
            assert forall|j: u64| j != k implies alist_get(r, j) == alist_get(s, j) by {
                if s[0].0 != j {
                    assert(alist_get(r, j) == alist_get(r.drop_first(), j));
                    assert(alist_get(s, j) == alist_get(s.drop_first(), j));
                    assert(alist_get(t, j) == alist_get(s.drop_first(), j));
                }
            }
            assert(alist_unique(r)) by {
                assert forall|a: int, b: int| 0 <= a < r.len() && 0 <= b < r.len() && a != b implies r[a].0
                    != r[b].0 by {
                    if a == 0 || b == 0 {
                        let o = if a == 0 { b } else { a };
                        lemma_alist_keys(s.drop_first(), k, v, o - 1);
                        if t[o - 1].0 != k {
                            let w = choose|w: int| 0 <= w < s.drop_first().len() && s.drop_first()[w].0 == t[o - 1].0;
                            assert(s[w + 1].0 == t[o - 1].0);
                        }
                    } else {
                        assert(r[a] == t[a - 1] && r[b] == t[b - 1]);
                    }
                }
            }
        }
    } else {
        let r = alist_put(s, k, v);
        assert forall|j: u64| j != k implies alist_get(r, j) == alist_get(s, j) by {
            assert(r.drop_first() =~= Seq::<(u64, V)>::empty());
            assert(alist_get(r, j) == alist_get(r.drop_first(), j));
        }
    }
}

/// Every key of a put list is the new key or an old key.
pub proof fn lemma_alist_keys<V>(s: Seq<(u64, V)>, k: u64, v: V, o: int)
    requires
        0 <= o < alist_put(s, k, v).len(),
    ensures
        alist_put(s, k, v)[o].0 == k || exists|w: int| 0 <= w < s.len() && s[w].0 == alist_put(s, k, v)[o].0,
    decreases s.len(),
{
    if s.len() > 0 && s[0].0 != k && o > 0 {
        lemma_alist_keys(s.drop_first(), k, v, o - 1);
        let t = alist_put(s.drop_first(), k, v);
        assert(alist_put(s, k, v)[o] == t[o - 1]);
        if t[o - 1].0 != k {
            let w = choose|w: int| 0 <= w < s.drop_first().len() && s.drop_first()[w].0 == t[o - 1].0;
            assert(s[w + 1].0 == t[o - 1].0);
        }
    } else if s.len() > 0 && s[0].0 == k && o > 0 {
        assert(alist_put(s, k, v)[o] == s[o]);
    }
}

/// Removing keeps keys unique and forgets exactly `k`.
pub proof fn lemma_alist_remove<V>(s: Seq<(u64, V)>, k: u64)
    requires
        alist_unique(s),
    ensures
        alist_unique(alist_remove(s, k)),
        alist_get(alist_remove(s, k), k) is None,
        forall|j: u64| j != k ==> alist_get(alist_remove(s, k), j) == alist_get(s, j),
{
    let f = key_is_not::<V>(k);
    let r = s.filter(f);
    assert forall|a: int, b: int| 0 <= a < r.len() && 0 <= b < r.len() && a != b implies r[a].0 != r[b].0 by {
        lemma_filter_index_map(s, f, a, b);
    }
    lemma_get_filter(s, k);
}

proof fn lemma_filter_index_map<V>(s: Seq<(u64, V)>, f: spec_fn((u64, V)) -> bool, a: int, b: int)
    requires
        alist_unique(s),
        0 <= a < s.filter(f).len(),
        0 <= b < s.filter(f).len(),
        a != b,
    ensures
        s.filter(f)[a].0 != s.filter(f)[b].0,
    decreases s.len(),
{
    reveal(Seq::filter);
    let d = s.drop_last();
    assert(alist_unique(d));
    let fd = d.filter(f);
    if f(s.last()) {
        assert(s.filter(f) == fd.push(s.last()));
        if a < fd.len() && b < fd.len() {
            lemma_filter_index_map(d, f, a, b);
        } else {
            let o = if a < fd.len() { a } else { b };
            if o < fd.len() {
                d.lemma_filter_contains_rev(f, fd[o]);
                assert(fd.contains(fd[o]));
                let w = choose|w: int| 0 <= w < d.len() && d[w] == fd[o];
                assert(s[w] == d[w]);
                assert(s[w].0 != s[s.len() - 1].0);
            }
        }
    } else {
        assert(s.filter(f) == fd);
        lemma_filter_index_map(d, f, a, b);
    }
}

proof fn lemma_get_filter<V>(s: Seq<(u64, V)>, k: u64)
    requires
        alist_unique(s),
    ensures
        alist_get(alist_remove(s, k), k) is None,
        forall|j: u64| j != k ==> alist_get(alist_remove(s, k), j) == alist_get(s, j),
    decreases s.len(),
{
    let f = key_is_not::<V>(k);
    if s.len() > 0 {
        let t = s.drop_first();
        assert(alist_unique(t));
        lemma_get_filter(t, k);
        t.lemma_filter_prepend(s[0], f);
        assert(seq![s[0]] + t =~= s);
        if s[0].0 != k {
            assert(s.filter(f) =~= seq![s[0]] + t.filter(f));
            assert((seq![s[0]] + t.filter(f)).drop_first() =~= t.filter(f));
            assert forall|j: u64| j != k implies alist_get(alist_remove(s, k), j) == alist_get(s, j) by {
                if s[0].0 != j {
                    assert(alist_get(s.filter(f), j) == alist_get(t.filter(f), j));
                    assert(alist_get(t.filter(f), j) == alist_get(t, j));
                }
            }
        } else {
            assert(s.filter(f) =~= t.filter(f));
            assert forall|j: u64| j != k implies alist_get(alist_remove(s, k), j) == alist_get(s, j) by {
                assert(alist_get(s, j) == alist_get(t, j));
                assert(alist_get(t.filter(f), j) == alist_get(t, j));
            }
        }
    } else {
        assert(s.filter(f) =~= s) by {
            reveal(Seq::filter);
        }
    }
}

/// The first index of key `k`, if any.
pub fn alist_find<T>(v: &Vec<(u64, T)>, k: u64) -> (r: Option<usize>)
    ensures
        r matches Some(i) ==> i < v@.len() && v@[i as int].0 == k && forall|j: int| 0 <= j < i ==> v@[j].0 != k,
        r is None ==> forall|j: int| 0 <= j < v@.len() ==> v@[j].0 != k,
{
    let mut i: usize = 0;
    while i < v.len()
        invariant
            i <= v@.len(),
            forall|j: int| 0 <= j < i ==> v@[j].0 != k,
        decreases v@.len() - i,
    {
        if v[i].0 == k {
            return Some(i);
        }
        i = i + 1;
    }
    None
}

} // verus!
