//! Ordered sets of symbols (labels of a Thing).

use vstd::prelude::*;
use crate::canon::Symbol;

verus! {

/// Whether a sequence of codes is strictly increasing.
pub open spec fn strictly_increasing(s: Seq<u32>) -> bool {
    forall|i: int, j: int| 0 <= i < j < s.len() ==> s[i] < s[j]
}

/// A set of symbols kept in increasing order of their codes.
#[derive(Debug)]
pub struct SymbolSet {
    items: Vec<Symbol>,
}

impl View for SymbolSet {
    type V = Set<u32>;

    open spec fn view(&self) -> Set<u32> {
        self.codes().to_set()
    }
}

impl SymbolSet {
    /// The codes, in increasing order.
    pub closed spec fn codes(self) -> Seq<u32> {
        self.items@.map_values(|s: Symbol| s.0)
    }

    #[verifier::type_invariant]
    closed spec fn inv(self) -> bool {
        strictly_increasing(self.codes())
    }

    /// A strictly increasing sequence has as many members as elements.
    pub proof fn lemma_codes(s: Seq<u32>)
        requires
            strictly_increasing(s),
        ensures
            s.len() == s.to_set().len(),
            forall|x: u32| s.to_set().contains(x) <==> s.contains(x),
    {
        assert(s.no_duplicates()) by {
            assert forall|i: int, j: int| 0 <= i < s.len() && 0 <= j < s.len() && i != j implies s[i]
                != s[j] by {
                if i < j {
                } else {
                }
            }
        }
        s.unique_seq_to_set();
    }

    /// The empty set.
    pub fn new() -> (s: SymbolSet)
        ensures
            s@ == Set::<u32>::empty(),
            s.codes() == Seq::<u32>::empty(),
    {
        let s = SymbolSet { items: Vec::new() };
        assert(s.codes() =~= Seq::<u32>::empty());
        s
    }

    /// Number of members.
    pub fn len(&self) -> (n: usize)
        ensures
            n == self@.len(),
            n == self.codes().len(),
    {
        proof {
            use_type_invariant(self);
            SymbolSet::lemma_codes(self.codes());
        }
        self.items.len()
    }

    /// Whether `s` is a member.
    pub fn contains(&self, s: &Symbol) -> (r: bool)
        ensures
            r == self@.contains(s.0),
    {
        let mut i: usize = 0;
        while i < self.items.len()
            invariant
                i <= self.items@.len(),
                forall|j: int| 0 <= j < i ==> self.items@[j].0 != s.0,
            decreases self.items@.len() - i,
        {
            if self.items[i].0 == s.0 {
                proof {
                    assert(self.codes()[i as int] == s.0);
                }
                return true;
            }
            i = i + 1;
        }
        proof {
            if self.codes().contains(s.0) {
                let j = choose|j: int| 0 <= j < self.codes().len() && self.codes()[j] == s.0;
                assert(self.items@[j].0 == s.0);
            }
        }
        false
    }

    /// Add `s`, keeping the order.
    pub fn insert(&mut self, s: Symbol)
        ensures
            final(self)@ == old(self)@.insert(s.0),
    {
        proof {
            use_type_invariant(&*self);
        }
        let ghost old_codes = self.codes();
        let mut i: usize = 0;
        while i < self.items.len() && self.items[i].0 < s.0
            invariant
                i <= self.items@.len(),
                old_codes == self.items@.map_values(|x: Symbol| x.0),
                forall|j: int| 0 <= j < i ==> self.items@[j].0 < s.0,
            decreases self.items@.len() - i,
        {
            i = i + 1;
        }
        if i < self.items.len() && self.items[i].0 == s.0 {
            proof {
                assert(old_codes[i as int] == s.0);
                assert(old_codes.to_set().insert(s.0) =~= old_codes.to_set());
            }
            return;
        }
        let mut items: Vec<Symbol> = Vec::new();
        std::mem::swap(&mut items, &mut self.items);
        items.insert(i, s);
        proof {
            let nc = items@.map_values(|x: Symbol| x.0);
            assert(nc =~= old_codes.insert(i as int, s.0));
            assert forall|a: int, b: int| 0 <= a < b < nc.len() implies nc[a] < nc[b] by {
                if b < i {
                } else if b == i {
                } else if a < i {
                    assert(nc[b] == old_codes[b - 1]);
                } else if a == i {
                    assert(nc[b] == old_codes[b - 1]);
                    assert(old_codes[i as int] > s.0 || b - 1 >= i);
                    if b - 1 > i {
                        assert(old_codes[i as int] < old_codes[b - 1]);
                    }
                } else {
                    assert(nc[a] == old_codes[a - 1]);
                    assert(nc[b] == old_codes[b - 1]);
                }
            }
            assert(nc.to_set() =~= old_codes.to_set().insert(s.0)) by {
                assert forall|x: u32| nc.to_set().contains(x) implies old_codes.to_set().insert(s.0).contains(x) by {
                    let k = choose|k: int| 0 <= k < nc.len() && nc[k] == x;
                    if k < i {
                        assert(old_codes[k] == x);
                    } else if k > i {
                        assert(old_codes[k - 1] == x);
                    }
                }
                assert forall|x: u32| old_codes.to_set().insert(s.0).contains(x) implies nc.to_set().contains(x) by {
                    if x == s.0 {
                        assert(nc[i as int] == x);
                    } else {
                        let k = choose|k: int| 0 <= k < old_codes.len() && old_codes[k] == x;
                        if k < i {
                            assert(nc[k] == x);
                        } else {
                            assert(nc[k + 1] == x);
                        }
                    }
                }
            }
        }
        self.items = items;
    }

    /// The smallest member, if any.
    pub fn first(&self) -> (r: Option<Symbol>)
        ensures
            r is None <==> self@.len() == 0,
            r matches Some(x) ==> self@.contains(x.0) && (forall|y: u32| self@.contains(y) ==> x.0 <= y),
            r matches Some(x) ==> x.0 == self.codes()[0],
    {
        proof {
            use_type_invariant(self);
            SymbolSet::lemma_codes(self.codes());
        }
        if self.items.len() == 0 {
            None
        } else {
            proof {
                assert(self.codes()[0] == self.items@[0].0);
                assert forall|y: u32| self@.contains(y) implies self.items@[0].0 <= y by {
                    let k = choose|k: int| 0 <= k < self.codes().len() && self.codes()[k] == y;
                    if k > 0 {
                        assert(self.codes()[0] < self.codes()[k]);
                    }
                }
            }
            Some(self.items[0])
        }
    }

    /// The set of the symbols in `v`.
    pub fn from_symbols(v: &Vec<Symbol>) -> (s: SymbolSet)
        ensures
            s@ == v@.map_values(|x: Symbol| x.0).to_set(),
    {
        let mut s = SymbolSet::new();
        let mut i: usize = 0;
        while i < v.len()
            invariant
                i <= v@.len(),
                s@ == v@.take(i as int).map_values(|x: Symbol| x.0).to_set(),
            decreases v@.len() - i,
        {
            let ghost before = s@;
            s.insert(v[i]);
            proof {
                assert(v@.take(i + 1).map_values(|x: Symbol| x.0) =~= v@.take(i as int).map_values(
                    |x: Symbol| x.0,
                ).push(v@[i as int].0));
                v@.take(i as int).map_values(|x: Symbol| x.0).lemma_push_to_set_commute(v@[i as int].0);
            }
            i = i + 1;
        }
        proof {
            assert(v@.take(i as int) =~= v@);
        }
        s
    }

    /// The members in increasing order.
    pub fn to_vec(&self) -> (v: Vec<Symbol>)
        ensures
            v@.map_values(|x: Symbol| x.0) == self.codes(),
            strictly_increasing(v@.map_values(|x: Symbol| x.0)),
    {
        proof {
            use_type_invariant(self);
        }
        let v = self.items.clone();
        proof {
            assert(v@.map_values(|x: Symbol| x.0) =~= self.codes());
        }
        v
    }

    /// A copy of the set.
    pub fn copy(&self) -> (s: SymbolSet)
        ensures
            s@ == self@,
            s.codes() == self.codes(),
    {
        proof {
            use_type_invariant(self);
        }
        let s = SymbolSet { items: self.items.clone() };
        assert(s.codes() =~= self.codes());
        s
    }
}

} // verus!
