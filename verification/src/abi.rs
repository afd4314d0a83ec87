//! The ABI shared by the kernel syscall veneer and the host runtime:
//! values, graph records, requests and responses.

use vstd::prelude::*;
use crate::assoc::{fold_map, keys_unique, lemma_fold_dom, lemma_fold_finite, lemma_fold_index, lemma_fold_update, lemma_push_unique};
use crate::symtext::{append_dec, append_signed, append_sym, dec_text, dict_text, list_text, sorted_keys, value_text, lemma_increasing_unique};
use crate::symset::{strictly_increasing, SymbolSet};
use crate::canon::Symbol;

verus! {

broadcast use vstd::std_specs::vec::axiom_vec_decreases_to_view;

/// Identifier of a bundle (a 128-bit UUID).
pub type BundleId = u128;

/// Identifier of a Thing (a 128-bit UUID).
pub type ThingId = u128;

/// Identifier of a watch.
pub type WatchId = u64;

/// The bundle that implicitly holds all privileges.
pub const KERNEL_BUNDLE_ID: u128 = 0xfeed_cafe_dead_beef_cafe_babe_0000_0001;

/// A field value.
#[derive(Debug)]
pub enum Value {
    Null,
    Bool(bool),
    U64(u64),
    I64(i64),
    Bytes(Vec<u8>),
    Symbol(Symbol),
    Uuid(u128),
    Text(String),
    Dict(SymbolMap),
    List(Vec<Value>),
    Blob(Vec<u8>),
}

/// A map from symbols to values (each symbol at most once).
#[derive(Debug)]
pub struct SymbolMap {
    entries: Vec<(Symbol, Value)>,
}

/// What a value denotes.
pub enum ValueView {
    Null,
    Bool(bool),
    U64(u64),
    I64(i64),
    Bytes(Seq<u8>),
    Symbol(u32),
    Uuid(u128),
    Text(Seq<char>),
    Dict(Map<u32, ValueView>),
    List(Seq<ValueView>),
    Blob(Seq<u8>),
}

/// What a value denotes.
pub open spec fn value_view(v: Value) -> ValueView
    decreases v,
{
    match v {
        Value::Null => ValueView::Null,
        Value::Bool(b) => ValueView::Bool(b),
        Value::U64(n) => ValueView::U64(n),
        Value::I64(n) => ValueView::I64(n),
        Value::Bytes(b) => ValueView::Bytes(b@),
        Value::Symbol(s) => ValueView::Symbol(s.0),
        Value::Uuid(u) => ValueView::Uuid(u),
        Value::Text(t) => ValueView::Text(t@),
        Value::Dict(m) => ValueView::Dict(symbol_map_view(m)),
        Value::List(l) => ValueView::List(list_views(l@)),
        Value::Blob(b) => ValueView::Blob(b@),
    }
}

/// What a symbol map denotes.
pub closed spec fn symbol_map_view(m: SymbolMap) -> Map<u32, ValueView>
    decreases m,
{
    fold_map(entry_views(m.entries@))
}

/// The entries of a symbol map as codes and denoted values.
pub open spec fn entry_views(s: Seq<(Symbol, Value)>) -> Seq<(u32, ValueView)>
    decreases s,
{
    if s.len() == 0 {
        Seq::empty()
    } else {
        entry_views(s.drop_last()).push((s.last().0.0, value_view(s.last().1)))
    }
}

/// The denoted values of a list.
pub open spec fn list_views(s: Seq<Value>) -> Seq<ValueView>
    decreases s,
{
    if s.len() == 0 {
        Seq::empty()
    } else {
        list_views(s.drop_last()).push(value_view(s.last()))
    }
}

/// The entry views line up with the entries.
pub proof fn lemma_entry_views(s: Seq<(Symbol, Value)>)
    ensures
        entry_views(s).len() == s.len(),
        forall|i: int|
            0 <= i < s.len() ==> #[trigger] entry_views(s)[i] == (s[i].0.0, value_view(s[i].1)),
    decreases s.len(),
{
    if s.len() > 0 {
        lemma_entry_views(s.drop_last());
        assert forall|i: int| 0 <= i < s.len() implies #[trigger] entry_views(s)[i] == (
            s[i].0.0,
            value_view(s[i].1),
        ) by {
            if i < s.len() - 1 {
                assert(s.drop_last()[i] == s[i]);
            }
        }
    }
}

/// The list views line up with the list.
pub proof fn lemma_list_views(s: Seq<Value>)
    ensures
        list_views(s).len() == s.len(),
        forall|i: int| 0 <= i < s.len() ==> #[trigger] list_views(s)[i] == value_view(s[i]),
    decreases s.len(),
{
    if s.len() > 0 {
        lemma_list_views(s.drop_last());
        assert forall|i: int| 0 <= i < s.len() implies #[trigger] list_views(s)[i] == value_view(s[i]) by {
            if i < s.len() - 1 {
                assert(s.drop_last()[i] == s[i]);
            }
        }
    }
}

/// Entry views of a sequence with a pair pushed.
pub proof fn lemma_entry_views_push(s: Seq<(Symbol, Value)>, k: Symbol, v: Value)
    ensures
        entry_views(s.push((k, v))) == entry_views(s).push((k.0, value_view(v))),
{
    assert(s.push((k, v)).drop_last() =~= s);
}

/// Entry views of a sequence with one pair replaced.
pub proof fn lemma_entry_views_update(s: Seq<(Symbol, Value)>, i: int, k: Symbol, v: Value)
    requires
        0 <= i < s.len(),
    ensures
        entry_views(s.update(i, (k, v))) == entry_views(s).update(i, (k.0, value_view(v))),
{
    lemma_entry_views(s);
    lemma_entry_views(s.update(i, (k, v)));
    assert(entry_views(s.update(i, (k, v))) =~= entry_views(s).update(i, (k.0, value_view(v))));
}

impl View for SymbolMap {
    type V = Map<u32, ValueView>;

    open spec fn view(&self) -> Map<u32, ValueView> {
        symbol_map_view(*self)
    }
}

impl SymbolMap {
    #[verifier::type_invariant]
    closed spec fn inv(self) -> bool {
        keys_unique(entry_views(self.entries@))
    }

    /// An empty map.
    pub fn new() -> (m: SymbolMap)
        ensures
            m@ == Map::<u32, ValueView>::empty(),
    {
        let m = SymbolMap { entries: Vec::new() };
        assert(entry_views(m.entries@) =~= Seq::empty());
        m
    }

    /// Number of keys.
    pub fn len(&self) -> (n: usize)
        ensures
            n == self@.len(),
            self@.dom().finite(),
    {
        proof {
            use_type_invariant(self);
            lemma_entry_views(self.entries@);
            crate::capgraph::lemma_unique_len(entry_views(self.entries@));
        }
        self.entries.len()
    }

    /// Whether the map is empty.
    pub fn is_empty(&self) -> (r: bool)
        ensures
            r == (self@.len() == 0),
            r == (self@ == Map::<u32, ValueView>::empty()),
    {
        let n = self.len();
        if n != 0 {
            proof {
                assert(self@.dom().len() > 0);
                if self@ == Map::<u32, ValueView>::empty() {
                    assert(self@.dom() =~= Set::<u32>::empty());
                }
            }
        } else {
            proof {
                assert(self@.dom() =~= Set::<u32>::empty());
                assert(self@ =~= Map::<u32, ValueView>::empty());
            }
        }
        n == 0
    }

    fn find(&self, key: Symbol) -> (r: Option<usize>)
        ensures
            r matches Some(i) ==> i < self.entries@.len() && self.entries@[i as int].0 == key,
            r is None ==> !self@.contains_key(key.0),
    {
        proof {
            use_type_invariant(self);
            lemma_entry_views(self.entries@);
        }
        let mut i: usize = 0;
        while i < self.entries.len()
            invariant
                i <= self.entries@.len(),
                entry_views(self.entries@).len() == self.entries@.len(),
                forall|j: int| 0 <= j < i ==> self.entries@[j].0.0 != key.0,
            decreases self.entries@.len() - i,
        {
            if self.entries[i].0.0 == key.0 {
                return Some(i);
            }
            i = i + 1;
        }
        proof {
            lemma_fold_dom(entry_views(self.entries@), key.0);
        }
        None
    }

    /// The value stored under `key`, if any.
    pub fn get(&self, key: &Symbol) -> (r: Option<&Value>)
        ensures
            r matches Some(v) ==> self@.contains_key(key.0) && value_view(*v) == self@[key.0],
            r is None ==> !self@.contains_key(key.0),
    {
        proof {
            use_type_invariant(self);
            lemma_entry_views(self.entries@);
        }
        match self.find(*key) {
            Some(i) => {
                proof {
                    lemma_fold_index(entry_views(self.entries@), i as int);
                }
                Some(&self.entries[i].1)
            },
            None => None,
        }
    }

    /// Whether `key` is present.
    pub fn contains_key(&self, key: &Symbol) -> (r: bool)
        ensures
            r == self@.contains_key(key.0),
    {
        self.get(key).is_some()
    }

    /// Store `value` under `key`, replacing what was there.
    pub fn insert(&mut self, key: Symbol, value: Value)
        ensures
            final(self)@ == old(self)@.insert(key.0, value_view(value)),
    {
        proof {
            use_type_invariant(&*self);
        }
        let ghost v = value_view(value);
        let ghost s = self.entries@;
        match self.find(key) {
            Some(i) => {
                proof {
                    lemma_entry_views(s);
                    lemma_fold_update(entry_views(s), i as int, v);
                    lemma_entry_views_update(s, i as int, key, value);
                }
                let mut entries: Vec<(Symbol, Value)> = Vec::new();
                std::mem::swap(&mut entries, &mut self.entries);
                entries.set(i, (key, value));
                self.entries = entries;
            },
            None => {
                proof {
                    lemma_push_unique(entry_views(s), key.0, v);
                    lemma_entry_views_push(s, key, value);
                }
                let mut entries: Vec<(Symbol, Value)> = Vec::new();
                std::mem::swap(&mut entries, &mut self.entries);
                entries.push((key, value));
                self.entries = entries;
            },
        }
    }
}

impl Value {
    /// A copy of the value.
    pub fn copy(&self) -> (v: Value)
        ensures
            value_view(v) == value_view(*self),
        decreases *self,
    {
        match self {
            Value::Null => Value::Null,
            Value::Bool(b) => Value::Bool(*b),
            Value::U64(n) => Value::U64(*n),
            Value::I64(n) => Value::I64(*n),
            Value::Bytes(b) => Value::Bytes(b.clone()),
            Value::Symbol(s) => Value::Symbol(*s),
            Value::Uuid(u) => Value::Uuid(*u),
            Value::Text(t) => Value::Text(t.clone()),
            Value::Dict(m) => Value::Dict(m.copy()),
            Value::List(l) => {
                let mut out: Vec<Value> = Vec::new();
                let mut i: usize = 0;
                while i < l.len()
                    invariant
                        i <= l@.len(),
                        *self == Value::List(*l),
                        list_views(out@) == list_views(l@.take(i as int)),
                    decreases l@.len() - i,
                {
                    proof {
                        assert(self->List_0 == *l);
                        assert(decreases_to!(*self => self->List_0));
                        assert(decreases_to!(*self => l@[i as int]));
                    }
                    let c = l[i].copy();
                    let ghost before = out@;
                    out.push(c);
                    proof {
                        assert(out@.drop_last() =~= before);
                        assert(l@.take(i + 1).drop_last() =~= l@.take(i as int));
                    }
                    i = i + 1;
                }
                proof {
                    assert(l@.take(i as int) =~= l@);
                }
                Value::List(out)
            },
            Value::Blob(b) => Value::Blob(b.clone()),
        }
    }

    /// Whether two values denote the same value.
    pub fn same_as(&self, other: &Value) -> (r: bool)
        ensures
            r == (value_view(*self) == value_view(*other)),
        decreases *self, 0nat,
    {
        match (self, other) {
            (Value::Null, Value::Null) => true,
            (Value::Bool(a), Value::Bool(b)) => *a == *b,
            (Value::U64(a), Value::U64(b)) => *a == *b,
            (Value::I64(a), Value::I64(b)) => *a == *b,
            (Value::Bytes(a), Value::Bytes(b)) => bytes_eq(a, b),
            (Value::Symbol(a), Value::Symbol(b)) => a.0 == b.0,
            (Value::Uuid(a), Value::Uuid(b)) => *a == *b,
            (Value::Text(a), Value::Text(b)) => *a == *b,
            (Value::Dict(a), Value::Dict(b)) => a.same_as(b),
            (Value::List(a), Value::List(b)) => {
                proof {
                    lemma_list_views(a@);
                    lemma_list_views(b@);
                }
                if a.len() != b.len() {
                    return false;
                }
                let mut i: usize = 0;
                while i < a.len()
                    invariant
                        i <= a@.len(),
                        *self == Value::List(*a),
                        *other == Value::List(*b),
                        a@.len() == b@.len(),
                        list_views(a@).len() == a@.len(),
                        list_views(b@).len() == b@.len(),
                        forall|j: int| 0 <= j < i ==> list_views(a@)[j] == list_views(b@)[j],
                        forall|j: int| 0 <= j < a@.len() ==> #[trigger] list_views(a@)[j] == value_view(a@[j]),
                        forall|j: int| 0 <= j < b@.len() ==> #[trigger] list_views(b@)[j] == value_view(b@[j]),
                    decreases a@.len() - i,
                {
                    proof {
                        assert(decreases_to!(*self => a@[i as int]));
                    }
                    if !a[i].same_as(&b[i]) {
                        proof {
                            assert(list_views(a@)[i as int] != list_views(b@)[i as int]);
                        }
                        return false;
                    }
                    i = i + 1;
                }
                proof {
                    assert(list_views(a@) =~= list_views(b@));
                }
                true
            },
            (Value::Blob(a), Value::Blob(b)) => bytes_eq(a, b),
            _ => false,
        }
    }
}

/// The text that a byte sequence encodes in UTF-8, if it is valid UTF-8.
pub open spec fn spec_utf8(b: Seq<u8>) -> Option<Seq<char>> {
    if vstd::utf8::valid_utf8(b) {
        Some(vstd::utf8::decode_utf8(b))
    } else {
        None
    }
}

/// The characters of a byte sequence read one byte per character.
pub open spec fn ascii_chars(b: Seq<u8>) -> Seq<char> {
    Seq::new(b.len(), |i: int| b[i] as char)
}

/// Decode UTF-8 text (`core::str::from_utf8`, the result copied into a `String`).
/// Trusted: `from_utf8` succeeds exactly on valid UTF-8 (vstd's `valid_utf8`:
/// well-formed, not overlong, no surrogates, at most U+10FFFF), giving the
/// characters vstd's `decode_utf8` reads; bytes that are all ASCII decode to
/// the characters with the same codes.
#[verifier::external_body]
pub(crate) fn utf8_text(b: &[u8]) -> (r: Option<String>)
    ensures
        r matches Some(s) ==> spec_utf8(b@) == Some(s@),
        r is None ==> spec_utf8(b@) is None,
        r is None ==> exists|i: int| 0 <= i < b@.len() && #[trigger] b@[i] >= 128,
        r matches Some(s) ==> ((forall|i: int| 0 <= i < b@.len() ==> #[trigger] b@[i] < 128) ==> s@
            == ascii_chars(b@)),
{
    match core::str::from_utf8(b) {
        Ok(s) => Some(s.to_owned()),
        Err(_) => None,
    }
}

/// Whether two byte vectors hold the same bytes.
pub fn bytes_eq(a: &Vec<u8>, b: &Vec<u8>) -> (r: bool)
    ensures
        r == (a@ == b@),
{
    if a.len() != b.len() {
        return false;
    }
    let mut i: usize = 0;
    while i < a.len()
        invariant
            i <= a@.len(),
            a@.len() == b@.len(),
            forall|j: int| 0 <= j < i ==> a@[j] == b@[j],
        decreases a@.len() - i,
    {
        if a[i] != b[i] {
            return false;
        }
        i = i + 1;
    }
    assert(a@ =~= b@);
    true
}

impl SymbolMap {
    /// A copy of the map.
    pub fn copy(&self) -> (m: SymbolMap)
        ensures
            m@ == self@,
        decreases *self,
    {
        proof {
            use_type_invariant(self);
            lemma_entry_views(self.entries@);
        }
        let mut entries: Vec<(Symbol, Value)> = Vec::new();
        let mut i: usize = 0;
        while i < self.entries.len()
            invariant
                i <= self.entries@.len(),
                entry_views(entries@) == entry_views(self.entries@.take(i as int)),
            decreases self.entries@.len() - i,
        {
            proof {
                assert(decreases_to!(*self => self.entries@[i as int].1));
            }
            let k = self.entries[i].0;
            let v = self.entries[i].1.copy();
            let ghost before = entries@;
            entries.push((k, v));
            proof {
                lemma_entry_views_push(before, k, v);
                assert(self.entries@.take(i + 1) =~= self.entries@.take(i as int).push(self.entries@[i as int]));
                lemma_entry_views_push(self.entries@.take(i as int), k, self.entries@[i as int].1);
            }
            i = i + 1;
        }
        proof {
            assert(self.entries@.take(i as int) =~= self.entries@);
        }
        SymbolMap { entries }
    }

    /// Whether every key of `self` is in `other` with the same value.
    pub fn all_present_in(&self, other: &SymbolMap) -> (r: bool)
        ensures
            r == (forall|k: u32| #[trigger] self@.contains_key(k) ==> other@.contains_key(k) && other@[k]
                == self@[k]),
        decreases *self, 0nat,
    {
        proof {
            use_type_invariant(self);
            lemma_entry_views(self.entries@);
        }
        let ghost pe = entry_views(self.entries@);
        let mut i: usize = 0;
        while i < self.entries.len()
            invariant
                i <= self.entries@.len(),
                pe == entry_views(self.entries@),
                pe.len() == self.entries@.len(),
                keys_unique(pe),
                forall|j: int| 0 <= j < self.entries@.len() ==> #[trigger] pe[j] == (self.entries@[j].0.0, value_view(self.entries@[j].1)),
                forall|j: int| 0 <= j < i ==> other@.contains_key(#[trigger] pe[j].0) && other@[pe[j].0] == pe[j].1,
            decreases self.entries@.len() - i,
        {
            proof {
                assert(decreases_to!(*self => self.entries@[i as int].1));
            }
            let ok = match other.get(&self.entries[i].0) {
                Some(v) => self.entries[i].1.same_as(v),
                None => false,
            };
            if !ok {
                proof {
                    lemma_fold_index(pe, i as int);
                    assert(self@.contains_key(pe[i as int].0));
                }
                return false;
            }
            proof {
                assert(pe[i as int] == (self.entries@[i as int].0.0, value_view(self.entries@[i as int].1)));
            }
            i = i + 1;
        }
        proof {
            assert forall|k: u32| #[trigger] self@.contains_key(k) implies other@.contains_key(k) && other@[k]
                == self@[k] by {
                lemma_fold_dom(pe, k);
                let j = choose|j: int| 0 <= j < pe.len() && pe[j].0 == k;
                lemma_fold_index(pe, j);
            }
        }
        true
    }

    /// Whether the two maps hold the same keys with the same values.
    pub fn same_as(&self, other: &SymbolMap) -> (r: bool)
        ensures
            r == (self@ == other@),
        decreases *self, 1nat,
    {
        let n = self.len();
        let m = other.len();
        if n != m {
            return false;
        }
        let sub = self.all_present_in(other);
        proof {
            if sub {
                assert(self@.dom().subset_of(other@.dom()));
                vstd::set_lib::lemma_subset_equality(self@.dom(), other@.dom());
                assert(self@ =~= other@);
            }
        }
        sub
    }
}

impl SymbolMap {
    /// Insert every pair of `other`, its values winning over ours.
    pub fn extend(&mut self, other: &SymbolMap)
        ensures
            final(self)@ == old(self)@.union_prefer_right(other@),
    {
        proof {
            use_type_invariant(other);
            lemma_entry_views(other.entries@);
        }
        let ghost pe = entry_views(other.entries@);
        let ghost start = self@;
        let mut i: usize = 0;
        while i < other.entries.len()
            invariant
                i <= other.entries@.len(),
                pe == entry_views(other.entries@),
                pe.len() == other.entries@.len(),
                keys_unique(pe),
                forall|j: int| 0 <= j < other.entries@.len() ==> #[trigger] pe[j] == (other.entries@[j].0.0, value_view(other.entries@[j].1)),
                self@ == start.union_prefer_right(fold_map(pe.take(i as int))),
            decreases other.entries@.len() - i,
        {
            let k = other.entries[i].0;
            let v = other.entries[i].1.copy();
            let ghost before = self@;
            self.insert(k, v);
            proof {
                assert(pe.take(i + 1).drop_last() =~= pe.take(i as int));
                assert(pe.take(i + 1).last() == pe[i as int]);
                assert(self@ =~= start.union_prefer_right(fold_map(pe.take(i + 1))));
            }
            i = i + 1;
        }
        proof {
            assert(pe.take(i as int) =~= pe);
        }
    }

    /// The pairs whose key is among `keys`.
    pub fn select(&self, keys: &Vec<Symbol>) -> (m: SymbolMap)
        ensures
            m@ == self@.restrict(keys@.map_values(|k: Symbol| k.0).to_set()),
    {
        let mut m = SymbolMap::new();
        let ghost ks = keys@.map_values(|k: Symbol| k.0);
        let mut i: usize = 0;
        while i < keys.len()
            invariant
                i <= keys@.len(),
                ks == keys@.map_values(|k: Symbol| k.0),
                m@ == self@.restrict(ks.take(i as int).to_set()),
            decreases keys@.len() - i,
        {
            let k = keys[i];
            proof {
                assert(ks.take(i + 1) =~= ks.take(i as int).push(k.0));
                ks.take(i as int).lemma_push_to_set_commute(k.0);
            }
            match self.get(&k) {
                Some(v) => {
                    let c = v.copy();
                    m.insert(k, c);
                    proof {
                        assert(m@ =~= self@.restrict(ks.take(i + 1).to_set()));
                    }
                },
                None => {
                    proof {
                        assert(m@ =~= self@.restrict(ks.take(i + 1).to_set()));
                    }
                },
            }
            i = i + 1;
        }
        proof {
            assert(ks.take(i as int) =~= ks);
        }
        m
    }
}

/// The text a value carries: a `Text` value, `Bytes` that decode as UTF-8, or
/// the text of the `TEXT` entry of a map.
pub open spec fn spec_extract_text(v: ValueView) -> Option<Seq<char>>
    decreases v,
{
    match v {
        ValueView::Text(t) => Some(t),
        ValueView::Bytes(b) => spec_utf8(b),
        ValueView::Dict(m) => if m.contains_key(crate::canon::TEXT) {
            spec_extract_text(m[crate::canon::TEXT])
        } else {
            None
        },
        _ => None,
    }
}

/// The text a value carries.
pub fn extract_text(value: &Value) -> (r: Option<String>)
    ensures
        r matches Some(s) ==> spec_extract_text(value_view(*value)) == Some(s@),
        r is None ==> spec_extract_text(value_view(*value)) is None,
    decreases value,
{
    match value {
        Value::Text(s) => Some(s.clone()),
        Value::Bytes(b) => utf8_text(b.as_slice()),
        Value::Dict(m) => {
            proof {
                use_type_invariant(m);
                lemma_entry_views(m.entries@);
            }
            match m.find(Symbol(crate::canon::TEXT)) {
                Some(i) => {
                    proof {
                        lemma_fold_index(entry_views(m.entries@), i as int);
                        assert(value->Dict_0 == *m);
                        assert(decreases_to!(*value => m.entries@[i as int].1));
                    }
                    extract_text(&m.entries[i].1)
                },
                None => None,
            }
        },
        _ => None,
    }
}

impl Value {
    /// A text value.
    pub fn text(s: &str) -> (v: Value)
        ensures
            value_view(v) == ValueView::Text(s@),
    {
        Value::Text(String::from_str(s))
    }

    /// A symbol value.
    pub fn symbol(sym: Symbol) -> (v: Value)
        ensures
            value_view(v) == ValueView::Symbol(sym.0),
    {
        Value::Symbol(sym)
    }

    /// A UUID value.
    pub fn uuid(id: u128) -> (v: Value)
        ensures
            value_view(v) == ValueView::Uuid(id),
    {
        Value::Uuid(id)
    }

    /// A map value.
    pub fn map(m: SymbolMap) -> (v: Value)
        ensures
            value_view(v) == ValueView::Dict(m@),
    {
        Value::Dict(m)
    }

    /// The map held, if this is a map.
    pub fn as_map(&self) -> (r: Option<&SymbolMap>)
        ensures
            r matches Some(m) ==> value_view(*self) == ValueView::Dict(m@),
            r is None ==> !(value_view(*self) is Dict),
    {
        match self {
            Value::Dict(m) => Some(m),
            _ => None,
        }
    }

    /// The UUID held, if this is a UUID.
    pub fn as_uuid(&self) -> (r: Option<u128>)
        ensures
            r == (match value_view(*self) {
                ValueView::Uuid(u) => Some(u),
                _ => None,
            }),
    {
        match self {
            Value::Uuid(u) => Some(*u),
            _ => None,
        }
    }

    /// The symbol held, if this is a symbol.
    pub fn as_symbol(&self) -> (r: Option<Symbol>)
        ensures
            r == (match value_view(*self) {
                ValueView::Symbol(s) => Some(Symbol(s)),
                _ => None,
            }),
    {
        match self {
            Value::Symbol(s) => Some(*s),
            _ => None,
        }
    }

    /// The unsigned number held, if this is one.
    pub fn as_u64(&self) -> (r: Option<u64>)
        ensures
            r == (match value_view(*self) {
                ValueView::U64(n) => Some(n),
                _ => None,
            }),
    {
        match self {
            Value::U64(n) => Some(*n),
            _ => None,
        }
    }

    /// The signed number held, if this is one.
    pub fn as_i64(&self) -> (r: Option<i64>)
        ensures
            r == (match value_view(*self) {
                ValueView::I64(n) => Some(n),
                _ => None,
            }),
    {
        match self {
            Value::I64(n) => Some(*n),
            _ => None,
        }
    }

    /// The flag held, if this is a flag.
    pub fn as_bool(&self) -> (r: Option<bool>)
        ensures
            r == (match value_view(*self) {
                ValueView::Bool(b) => Some(b),
                _ => None,
            }),
    {
        match self {
            Value::Bool(b) => Some(*b),
            _ => None,
        }
    }

    /// The text held, if this is a text.
    pub fn as_text(&self) -> (r: Option<&str>)
        ensures
            r matches Some(t) ==> value_view(*self) == ValueView::Text(t@),
            r is None ==> !(value_view(*self) is Text),
    {
        match self {
            Value::Text(s) => Some(s.as_str()),
            _ => None,
        }
    }
}

impl SymbolMap {
    /// The keys, each once.
    pub fn keys(&self) -> (v: Vec<Symbol>)
        ensures
            v@.len() == self@.len(),
            forall|k: u32| #[trigger] self@.contains_key(k) <==> exists|i: int| 0 <= i < v@.len() && v@[i].0 == k,
    {
        proof {
            use_type_invariant(self);
            lemma_entry_views(self.entries@);
            crate::capgraph::lemma_unique_len(entry_views(self.entries@));
        }
        let ghost pe = entry_views(self.entries@);
        let mut v: Vec<Symbol> = Vec::new();
        let mut i: usize = 0;
        while i < self.entries.len()
            invariant
                i <= self.entries@.len(),
                v@.len() == i,
                pe == entry_views(self.entries@),
                pe.len() == self.entries@.len(),
                forall|j: int| 0 <= j < self.entries@.len() ==> #[trigger] pe[j] == (self.entries@[j].0.0, value_view(self.entries@[j].1)),
                forall|j: int| 0 <= j < i ==> v@[j].0 == pe[j].0,
            decreases self.entries@.len() - i,
        {
            v.push(self.entries[i].0);
            i = i + 1;
        }
        proof {
            assert forall|k: u32| #[trigger] self@.contains_key(k) <==> exists|j: int| 0 <= j < v@.len() && v@[j].0 == k by {
                lemma_fold_dom(pe, k);
                if self@.contains_key(k) {
                    let j = choose|j: int| 0 <= j < pe.len() && pe[j].0 == k;
                    assert(v@[j].0 == k);
                }
                if exists|j: int| 0 <= j < v@.len() && v@[j].0 == k {
                    let j = choose|j: int| 0 <= j < v@.len() && v@[j].0 == k;
                    assert(pe[j].0 == k);
                }
            }
        }
        v
    }
}

impl Value {
    /// The text of the value; symbols (and map keys) by name when `names`,
    /// else by their codes (see `value_text`).
    pub fn to_text(&self, names: bool) -> (s: String)
        ensures
            s@ == value_text(value_view(*self), names),
    {
        let mut out = String::new();
        self.append_text(&mut out, names);
        proof {
            assert(out@ =~= value_text(value_view(*self), names));
        }
        out
    }

    fn append_text(&self, out: &mut String, names: bool)
        ensures
            final(out)@ == old(out)@ + value_text(value_view(*self), names),
        decreases *self,
    {
        proof {
            reveal_strlit("null");
            assert("null"@ =~= seq!['n', 'u', 'l', 'l']);
            reveal_strlit("true");
            assert("true"@ =~= seq!['t', 'r', 'u', 'e']);
            reveal_strlit("false");
            assert("false"@ =~= seq!['f', 'a', 'l', 's', 'e']);
            reveal_strlit("bytes(");
            assert("bytes("@ =~= seq!['b', 'y', 't', 'e', 's', '(']);
            reveal_strlit("blob(");
            assert("blob("@ =~= seq!['b', 'l', 'o', 'b', '(']);
            reveal_strlit(")");
            assert(")"@ =~= seq![')']);
            reveal_strlit("\"");
            reveal_strlit("{");
            assert("{"@ =~= seq!['{']);
            reveal_strlit("}");
            assert("}"@ =~= seq!['}']);
            reveal_strlit("[");
            assert("["@ =~= seq!['[']);
            reveal_strlit("]");
            assert("]"@ =~= seq![']']);
        }
        let ghost start = out@;
        match self {
            Value::Null => out.append("null"),
            Value::Bool(b) => if *b {
                out.append("true")
            } else {
                out.append("false")
            },
            Value::U64(n) => append_dec(out, *n),
            Value::I64(n) => append_signed(out, *n),
            Value::Bytes(b) => {
                out.append("bytes(");
                append_dec(out, b.len() as u64);
                out.append(")");
                proof {
                    assert(out@ =~= start + value_text(value_view(*self), names));
                }
            },
            Value::Blob(b) => {
                out.append("blob(");
                append_dec(out, b.len() as u64);
                out.append(")");
                proof {
                    assert(out@ =~= start + value_text(value_view(*self), names));
                }
            },
            Value::Symbol(s) => append_sym(out, *s, names),
            Value::Uuid(u) => {
                let t = crate::layout::uuid_text(*u);
                out.append(t.as_str());
            },
            Value::Text(t) => {
                out.append("\"");
                out.append(t.as_str());
                out.append("\"");
                proof {
                    assert(out@ =~= start + value_text(value_view(*self), names));
                }
            },
            Value::Dict(m) => {
                out.append("{");
                m.append_entries_text(out, names);
                out.append("}");
                proof {
                    assert(out@ =~= start + value_text(value_view(*self), names));
                }
            },
            Value::List(l) => {
                out.append("[");
                let ghost mid = out@;
                let ghost lv = list_views(l@);
                proof {
                    lemma_list_views(l@);
                }
                let mut i: usize = 0;
                while i < l.len()
                    invariant
                        i <= l@.len(),
                        *self == Value::List(*l),
                        lv == list_views(l@),
                        lv.len() == l@.len(),
                        forall|j: int| 0 <= j < l@.len() ==> #[trigger] lv[j] == value_view(l@[j]),
                        out@ == mid + list_text(lv.subrange(0, i as int), names),
                    decreases l@.len() - i,
                {
                    proof {
                        assert(self->List_0 == *l);
                        assert(decreases_to!(*self => self->List_0));
                        assert(decreases_to!(*self => l@[i as int]));
                        reveal_strlit(", ");
                        assert(", "@ =~= seq![',', ' ']);
                    }
                    if i > 0 {
                        out.append(", ");
                    }
                    l[i].append_text(out, names);
                    proof {
                        let t = lv.subrange(0, i + 1);
                        assert(t.subrange(0, t.len() - 1) =~= lv.subrange(0, i as int));
                        assert(t[t.len() - 1] == lv[i as int]);
                        if i == 0 {
                            assert(lv.subrange(0, 0) =~= Seq::<ValueView>::empty());
                        }
                    }
                    i = i + 1;
                }
                proof {
                    assert(lv.subrange(0, i as int) =~= lv);
                }
                out.append("]");
                proof {
                    assert(out@ =~= start + value_text(value_view(*self), names));
                }
            },
        }
    }
}

impl SymbolMap {
    /// Append the entries as `k: v`, in increasing key order, separated by `, `.
    fn append_entries_text(&self, out: &mut String, names: bool)
        ensures
            final(out)@ == old(out)@ + dict_text(self@, sorted_keys(self@), names),
        decreases *self,
    {
        proof {
            use_type_invariant(self);
            lemma_entry_views(self.entries@);
            lemma_fold_finite(entry_views(self.entries@));
        }
        let ghost ev = entry_views(self.entries@);
        let mut set = SymbolSet::new();
        let mut i: usize = 0;
        while i < self.entries.len()
            invariant
                i <= self.entries@.len(),
                ev == entry_views(self.entries@),
                ev.len() == self.entries@.len(),
                forall|j: int| 0 <= j < self.entries@.len() ==> #[trigger] ev[j] == (self.entries@[j].0.0, value_view(self.entries@[j].1)),
                forall|x: u32| set@.contains(x) <==> exists|j: int| 0 <= j < i && ev[j].0 == x,
            decreases self.entries@.len() - i,
        {
            set.insert(self.entries[i].0);
            proof {
                assert forall|x: u32| set@.contains(x) implies exists|j: int| 0 <= j < i + 1 && ev[j].0 == x by {
                    if x == ev[i as int].0 {
                    } else {
                    }
                }
                assert forall|x: u32| (exists|j: int| 0 <= j < i + 1 && ev[j].0 == x) implies set@.contains(x) by {
                    let j = choose|j: int| 0 <= j < i + 1 && ev[j].0 == x;
                    if j < i {
                    }
                }
            }
            i = i + 1;
        }
        let ks = set.to_vec();
        let ghost codes = ks@.map_values(|x: Symbol| x.0);
        proof {
            assert(codes.to_set() =~= self@.dom()) by {
                assert(codes.to_set() == set@);
                assert(self@ == fold_map(ev));
                assert forall|x: u32| codes.to_set().contains(x) <==> self@.dom().contains(x) by {
                    lemma_fold_dom(ev, x);
                    if set@.contains(x) {
                        let j = choose|j: int| 0 <= j < i && ev[j].0 == x;
                        assert(0 <= j < ev.len() && ev[j].0 == x);
                    }
                    if self@.dom().contains(x) {
                        let j = choose|j: int| 0 <= j < ev.len() && ev[j].0 == x;
                        assert(0 <= j < i && ev[j].0 == x);
                    }
                }
            }
            assert(strictly_increasing(codes) && codes.to_set() == self@.dom());
            lemma_increasing_unique(codes, sorted_keys(self@));
        }
        let ghost start = out@;
        let mut j: usize = 0;
        while j < ks.len()
            invariant
                j <= ks@.len(),
                codes == ks@.map_values(|x: Symbol| x.0),
                codes == sorted_keys(self@),
                codes.to_set() == self@.dom(),
                self@.dom().finite(),
                ev == entry_views(self.entries@),
                ev.len() == self.entries@.len(),
                keys_unique(ev),
                self@ == fold_map(ev),
                forall|l: int| 0 <= l < self.entries@.len() ==> #[trigger] ev[l] == (self.entries@[l].0.0, value_view(self.entries@[l].1)),
                out@ == start + dict_text(self@, codes.take(j as int), names),
            decreases ks@.len() - j,
        {
            let k = ks[j];
            proof {
                assert(codes[j as int] == k.0);
                assert(codes.to_set().contains(k.0));
                lemma_fold_dom(ev, k.0);
            }
            let mut i: usize = 0;
            while i < self.entries.len() && self.entries[i].0.0 != k.0
                invariant
                    i <= self.entries@.len(),
                    ev == entry_views(self.entries@),
                    ev.len() == self.entries@.len(),
                    forall|l: int| 0 <= l < self.entries@.len() ==> #[trigger] ev[l] == (self.entries@[l].0.0, value_view(self.entries@[l].1)),
                    exists|l: int| 0 <= l < ev.len() && ev[l].0 == k.0,
                    forall|l: int| 0 <= l < i ==> ev[l].0 != k.0,
                decreases self.entries@.len() - i,
            {
                i = i + 1;
            }
            proof {
                if i == self.entries@.len() {
                    let l = choose|l: int| 0 <= l < ev.len() && ev[l].0 == k.0;
                    assert(false);
                }
                lemma_fold_index(ev, i as int);
                assert(decreases_to!(*self => self.entries@[i as int].1));
                reveal_strlit(", ");
                assert(", "@ =~= seq![',', ' ']);
                reveal_strlit(": ");
                assert(": "@ =~= seq![':', ' ']);
            }
            let ghost before = out@;
            if j > 0 {
                out.append(", ");
            }
            append_sym(out, k, names);
            out.append(": ");
            self.entries[i].1.append_text(out, names);
            proof {
                let t = codes.take(j + 1);
                assert(t.drop_last() =~= codes.take(j as int));
                assert(t.last() == k.0);
                assert(self@[k.0] == value_view(self.entries@[i as int].1));
                if j == 0 {
                    assert(codes.take(0) =~= Seq::<u32>::empty());
                }
                assert(out@ =~= start + dict_text(self@, codes.take(j + 1), names));
            }
            j = j + 1;
        }
        proof {
            assert(codes.take(j as int) =~= codes);
        }
    }
}

} // verus!
