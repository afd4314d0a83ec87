//! Core graph and capability model: every piece of state is a node or an
//! edge, each owned by a bundle; bundles read, write and link through
//! ownership and capability edges, and watches report changes they may see.

use vstd::prelude::*;
use crate::assoc::{fold_map, keys_unique, lemma_fold_dom, lemma_fold_index, lemma_fold_update, lemma_push_unique};
use crate::canon::str_eq;

verus! {

/// Identifier for a bundle/task.
#[derive(Clone, Copy, PartialEq, Eq, Structural, Debug, Hash, PartialOrd, Ord)]
pub struct BundleId(pub u64);

/// Opaque identifier for nodes.
#[derive(Clone, Copy, PartialEq, Eq, Structural, Debug, Hash, PartialOrd, Ord)]
pub struct NodeId(pub u64);

/// Opaque identifier for edges.
#[derive(Clone, Copy, PartialEq, Eq, Structural, Debug, Hash, PartialOrd, Ord)]
pub struct EdgeId(pub u64);

/// Identifier for watches registered by bundles.
#[derive(Clone, Copy, PartialEq, Eq, Structural, Debug, Hash, PartialOrd, Ord)]
pub struct WatchId(pub u64);

/// Property value used by the graph. A float is held by its IEEE-754 bit
/// pattern, so two floats are equal when their bits are.
#[derive(Debug)]
pub enum Value {
    Int(i64),
    Float(u64),
    Bool(bool),
    Text(String),
    U128(u128),
}

/// What a property value denotes.
pub enum PropValue {
    Int(i64),
    Float(u64),
    Bool(bool),
    Text(Seq<char>),
    U128(u128),
}

impl View for Value {
    type V = PropValue;

    open spec fn view(&self) -> PropValue {
        match self {
            Value::Int(i) => PropValue::Int(*i),
            Value::Float(f) => PropValue::Float(*f),
            Value::Bool(b) => PropValue::Bool(*b),
            Value::Text(s) => PropValue::Text(s@),
            Value::U128(u) => PropValue::U128(*u),
        }
    }
}

impl Value {
    /// A text value holding the characters of `s`.
    pub fn from_text(s: &str) -> (v: Value)
        ensures
            v@ == PropValue::Text(s@),
    {
        Value::Text(String::from_str(s))
    }

    /// A copy of the value.
    pub fn copy(&self) -> (v: Value)
        ensures
            v@ == self@,
    {
        match self {
            Value::Int(i) => Value::Int(*i),
            Value::Float(f) => Value::Float(*f),
            Value::Bool(b) => Value::Bool(*b),
            Value::Text(s) => Value::Text(s.clone()),
            Value::U128(u) => Value::U128(*u),
        }
    }

    /// Whether two values are the same value.
    pub fn same_as(&self, other: &Value) -> (r: bool)
        ensures
            r == (self@ == other@),
    {
        match (self, other) {
            (Value::Int(a), Value::Int(b)) => *a == *b,
            (Value::Float(a), Value::Float(b)) => *a == *b,
            (Value::Bool(a), Value::Bool(b)) => *a == *b,
            (Value::Text(a), Value::Text(b)) => *a == *b,
            (Value::U128(a), Value::U128(b)) => *a == *b,
            _ => false,
        }
    }
}

/// The entries of a property map, as characters and denoted values.
pub open spec fn prop_entries(s: Seq<(String, Value)>) -> Seq<(Seq<char>, PropValue)> {
    s.map_values(|e: (String, Value)| (e.0@, e.1@))
}

/// A map from property names to values.
#[derive(Debug)]
pub struct PropMap {
    entries: Vec<(String, Value)>,
}

impl View for PropMap {
    type V = Map<Seq<char>, PropValue>;

    closed spec fn view(&self) -> Map<Seq<char>, PropValue> {
        fold_map(prop_entries(self.entries@))
    }
}

impl PropMap {
    #[verifier::type_invariant]
    closed spec fn inv(self) -> bool {
        keys_unique(prop_entries(self.entries@))
    }

    /// An empty map.
    pub fn new() -> (m: PropMap)
        ensures
            m@ == Map::<Seq<char>, PropValue>::empty(),
    {
        let m = PropMap { entries: Vec::new() };
        assert(prop_entries(m.entries@) =~= Seq::empty());
        m
    }

    /// Number of keys.
    pub fn len(&self) -> (n: usize)
        ensures
            n == self@.len(),
    {
        proof {
            use_type_invariant(self);
            lemma_unique_len(prop_entries(self.entries@));
        }
        self.entries.len()
    }

    fn find(&self, key: &str) -> (r: Option<usize>)
        ensures
            r matches Some(i) ==> i < self.entries@.len() && self.entries@[i as int].0@ == key@,
            r is None ==> !self@.contains_key(key@),
    {
        proof {
            use_type_invariant(self);
        }
        let mut i: usize = 0;
        while i < self.entries.len()
            invariant
                i <= self.entries@.len(),
                forall|j: int| 0 <= j < i ==> self.entries@[j].0@ != key@,
            decreases self.entries@.len() - i,
        {
            if str_eq(self.entries[i].0.as_str(), key) {
                return Some(i);
            }
            i = i + 1;
        }
        proof {
            lemma_fold_dom(prop_entries(self.entries@), key@);
        }
        None
    }

    /// The value stored under `key`, if any.
    pub fn get(&self, key: &str) -> (r: Option<&Value>)
        ensures
            r matches Some(v) ==> self@.contains_key(key@) && v@ == self@[key@],
            r is None ==> !self@.contains_key(key@),
    {
        proof {
            use_type_invariant(self);
        }
        match self.find(key) {
            Some(i) => {
                proof {
                    lemma_fold_index(prop_entries(self.entries@), i as int);
                }
                Some(&self.entries[i].1)
            },
            None => None,
        }
    }

    /// Whether `key` is present.
    pub fn contains_key(&self, key: &str) -> (r: bool)
        ensures
            r == self@.contains_key(key@),
    {
        self.get(key).is_some()
    }

    /// Store `value` under `key`, replacing what was there.
    pub fn insert(&mut self, key: String, value: Value)
        ensures
            final(self)@ == old(self)@.insert(key@, value@),
    {
        proof {
            use_type_invariant(&*self);
        }
        let ghost k = key@;
        let ghost v = value@;
        match self.find(key.as_str()) {
            Some(i) => {
                let ghost s = prop_entries(self.entries@);
                proof {
                    lemma_fold_update(s, i as int, v);
                }
                let mut entries: Vec<(String, Value)> = Vec::new();
                std::mem::swap(&mut entries, &mut self.entries);
                entries.set(i, (key, value));
                proof {
                    assert(prop_entries(entries@) =~= s.update(i as int, (s[i as int].0, v)));
                }
                self.entries = entries;
            },
            None => {
                let ghost s = prop_entries(self.entries@);
                proof {
                    lemma_push_unique(s, k, v);
                }
                let mut entries: Vec<(String, Value)> = Vec::new();
                std::mem::swap(&mut entries, &mut self.entries);
                entries.push((key, value));
                proof {
                    assert(prop_entries(entries@) =~= s.push((k, v)));
                }
                self.entries = entries;
            },
        }
    }

    /// A copy of the map.
    pub fn copy(&self) -> (m: PropMap)
        ensures
            m@ == self@,
    {
        proof {
            use_type_invariant(self);
        }
        let mut entries: Vec<(String, Value)> = Vec::new();
        let mut i: usize = 0;
        while i < self.entries.len()
            invariant
                i <= self.entries@.len(),
                prop_entries(entries@) =~= prop_entries(self.entries@).take(i as int),
            decreases self.entries@.len() - i,
        {
            let k = self.entries[i].0.clone();
            let v = self.entries[i].1.copy();
            let ghost before = entries@;
            entries.push((k, v));
            proof {
                let pe = prop_entries(self.entries@);
                assert(pe[i as int] == (k@, v@));
                assert(prop_entries(entries@) =~= prop_entries(before).push((k@, v@)));
                assert(pe.take(i + 1) =~= pe.take(i as int).push(pe[i as int]));
            }
            i = i + 1;
        }
        proof {
            assert(prop_entries(self.entries@).take(i as int) =~= prop_entries(self.entries@));
        }
        PropMap { entries }
    }
}

impl PropMap {
    /// Whether every key of `self` is in `other` with the same value.
    pub fn all_present_in(&self, other: &PropMap) -> (r: bool)
        ensures
            r == (forall|k: Seq<char>| #[trigger] self@.contains_key(k) ==> other@.contains_key(k)
                && other@[k] == self@[k]),
    {
        proof {
            use_type_invariant(self);
        }
        let ghost pe = prop_entries(self.entries@);
        let mut i: usize = 0;
        while i < self.entries.len()
            invariant
                i <= self.entries@.len(),
                pe == prop_entries(self.entries@),
                keys_unique(pe),
                forall|j: int| 0 <= j < i ==> other@.contains_key(#[trigger] pe[j].0) && other@[pe[j].0]
                    == pe[j].1,
            decreases self.entries@.len() - i,
        {
            let ok = match other.get(self.entries[i].0.as_str()) {
                Some(v) => v.same_as(&self.entries[i].1),
                None => false,
            };
            if !ok {
                proof {
                    lemma_fold_index(pe, i as int);
                    assert(pe[i as int].0 == self.entries@[i as int].0@);
                    assert(self@.contains_key(pe[i as int].0));
                }
                return false;
            }
            i = i + 1;
        }
        proof {
            assert forall|k: Seq<char>| #[trigger] self@.contains_key(k) implies other@.contains_key(k)
                && other@[k] == self@[k] by {
                lemma_fold_dom(pe, k);
                let j = choose|j: int| 0 <= j < pe.len() && pe[j].0 == k;
                lemma_fold_index(pe, j);
            }
        }
        true
    }
}

/// The labels of a set, as characters.
pub open spec fn label_chars(s: Seq<String>) -> Seq<Seq<char>> {
    s.map_values(|l: String| l@)
}

/// A set of labels.
#[derive(Debug)]
pub struct LabelSet {
    items: Vec<String>,
}

impl View for LabelSet {
    type V = Set<Seq<char>>;

    closed spec fn view(&self) -> Set<Seq<char>> {
        label_chars(self.items@).to_set()
    }
}

impl LabelSet {
    #[verifier::type_invariant]
    closed spec fn inv(self) -> bool {
        label_chars(self.items@).no_duplicates()
    }

    /// An empty set.
    pub fn new() -> (s: LabelSet)
        ensures
            s@ == Set::<Seq<char>>::empty(),
    {
        let s = LabelSet { items: Vec::new() };
        assert(label_chars(s.items@) =~= Seq::empty());
        assert(s@ =~= Set::<Seq<char>>::empty());
        s
    }

    /// Whether `label` is in the set.
    pub fn contains(&self, label: &str) -> (r: bool)
        ensures
            r == self@.contains(label@),
    {
        let ghost lc = label_chars(self.items@);
        let mut i: usize = 0;
        while i < self.items.len()
            invariant
                i <= self.items@.len(),
                lc == label_chars(self.items@),
                forall|j: int| 0 <= j < i ==> lc[j] != label@,
            decreases self.items@.len() - i,
        {
            if str_eq(self.items[i].as_str(), label) {
                proof {
                    assert(lc[i as int] == label@);
                }
                return true;
            }
            i = i + 1;
        }
        false
    }

    /// Add `label` to the set.
    pub fn insert(&mut self, label: String)
        ensures
            final(self)@ == old(self)@.insert(label@),
    {
        proof {
            use_type_invariant(&*self);
        }
        if self.contains(label.as_str()) {
            assert(old(self)@.insert(label@) =~= old(self)@);
        } else {
            let ghost lc = label_chars(self.items@);
            let ghost l = label@;
            let mut items: Vec<String> = Vec::new();
            std::mem::swap(&mut items, &mut self.items);
            items.push(label);
            proof {
                assert(label_chars(items@) =~= lc.push(l));
                Seq::<Seq<char>>::lemma_to_set_insert_commutes(lc, l);
                assert(lc + seq![l] =~= lc.push(l));
                assert forall|i: int, j: int| 0 <= i < j < lc.push(l).len() implies lc.push(l)[i]
                    != lc.push(l)[j] by {
                    if j == lc.len() {
                        assert(lc.contains(lc[i]));
                    }
                }
            }
            self.items = items;
        }
    }

    /// Whether every label of `self` is in `other`.
    pub fn is_subset(&self, other: &LabelSet) -> (r: bool)
        ensures
            r == self@.subset_of(other@),
    {
        let ghost lc = label_chars(self.items@);
        let mut i: usize = 0;
        while i < self.items.len()
            invariant
                i <= self.items@.len(),
                lc == label_chars(self.items@),
                forall|j: int| 0 <= j < i ==> other@.contains(#[trigger] lc[j]),
            decreases self.items@.len() - i,
        {
            if !other.contains(self.items[i].as_str()) {
                proof {
                    assert(lc[i as int] == self.items@[i as int]@);
                    assert(self@.contains(lc[i as int]));
                }
                return false;
            }
            i = i + 1;
        }
        proof {
            assert forall|x: Seq<char>| self@.contains(x) implies other@.contains(x) by {
                let j = choose|j: int| 0 <= j < lc.len() && lc[j] == x;
            }
        }
        true
    }

    /// Number of labels.
    pub fn len(&self) -> (n: usize)
        ensures
            n == self@.len(),
    {
        proof {
            use_type_invariant(self);
            label_chars(self.items@).unique_seq_to_set();
        }
        self.items.len()
    }

    /// A copy of the set.
    pub fn copy(&self) -> (s: LabelSet)
        ensures
            s@ == self@,
    {
        proof {
            use_type_invariant(self);
        }
        let mut items: Vec<String> = Vec::new();
        let mut i: usize = 0;
        while i < self.items.len()
            invariant
                i <= self.items@.len(),
                label_chars(items@) =~= label_chars(self.items@).take(i as int),
            decreases self.items@.len() - i,
        {
            let ghost before = items@;
            let l = self.items[i].clone();
            items.push(l);
            proof {
                assert(label_chars(items@) =~= label_chars(before).push(l@));
                assert(label_chars(self.items@).take(i + 1) =~= label_chars(self.items@).take(
                    i as int,
                ).push(label_chars(self.items@)[i as int]));
            }
            i = i + 1;
        }
        proof {
            assert(label_chars(self.items@).take(i as int) =~= label_chars(self.items@));
        }
        LabelSet { items }
    }
}

impl PropMap {
    /// Store every entry of `other`, replacing existing values.
    pub fn merge(&mut self, other: &PropMap)
        ensures
            final(self)@ == old(self)@.union_prefer_right(other@),
    {
        proof {
            use_type_invariant(other);
        }
        let ghost pe = prop_entries(other.entries@);
        let mut i: usize = 0;
        while i < other.entries.len()
            invariant
                i <= other.entries@.len(),
                pe == prop_entries(other.entries@),
                keys_unique(pe),
                self@ == old(self)@.union_prefer_right(fold_map(pe.take(i as int))),
            decreases other.entries@.len() - i,
        {
            let k = other.entries[i].0.clone();
            let v = other.entries[i].1.copy();
            self.insert(k, v);
            proof {
                assert(pe.take(i + 1).drop_last() =~= pe.take(i as int));
                assert(self@ =~= old(self)@.union_prefer_right(fold_map(pe.take(i + 1))));
            }
            i = i + 1;
        }
        proof {
            assert(pe.take(i as int) =~= pe);
        }
    }

    /// The entries of `self` whose keys are among `keys`.
    pub fn restricted_to(&self, keys: &[String]) -> (m: PropMap)
        ensures
            m@ == self@.restrict(label_chars(keys@).to_set()),
    {
        let mut out = PropMap::new();
        let mut i: usize = 0;
        while i < keys.len()
            invariant
                i <= keys@.len(),
                out@ == self@.restrict(label_chars(keys@.take(i as int)).to_set()),
            decreases keys@.len() - i,
        {
            let ghost before = out@;
            match self.get(keys[i].as_str()) {
                Some(v) => {
                    out.insert(keys[i].clone(), v.copy());
                },
                None => {},
            }
            proof {
                let ks = label_chars(keys@.take(i + 1)).to_set();
                assert(label_chars(keys@.take(i + 1)) =~= label_chars(keys@.take(i as int)).push(
                    keys@[i as int]@,
                ));
                Seq::<Seq<char>>::lemma_to_set_insert_commutes(
                    label_chars(keys@.take(i as int)),
                    keys@[i as int]@,
                );
                assert(label_chars(keys@.take(i as int)) + seq![keys@[i as int]@] =~= label_chars(
                    keys@.take(i as int),
                ).push(keys@[i as int]@));
                assert(out@ =~= self@.restrict(ks));
            }
            i = i + 1;
        }
        proof {
            assert(keys@.take(i as int) =~= keys@);
        }
        out
    }
}

/// The map of unique-key pairs has as many keys as pairs.
pub proof fn lemma_unique_len<K, V>(s: Seq<(K, V)>)
    requires
        keys_unique(s),
    ensures
        fold_map(s).len() == s.len(),
        fold_map(s).dom().finite(),
    decreases s.len(),
{
    if s.len() > 0 {
        assert(keys_unique(s.drop_last()));
        lemma_unique_len(s.drop_last());
        lemma_fold_dom(s.drop_last(), s.last().0);
        if fold_map(s.drop_last()).contains_key(s.last().0) {
            let i = choose|i: int| 0 <= i < s.drop_last().len() && s.drop_last()[i].0 == s.last().0;
            assert(s[i].0 == s[s.len() - 1].0);
        }
    }
}

} // verus!

verus! {

/// A pattern for querying nodes: labels they must carry and properties
/// they must hold.
#[derive(Debug)]
pub struct NodePattern {
    pub labels: LabelSet,
    pub required_props: PropMap,
}

impl Default for NodePattern {
    /// The pattern that every node matches.
    fn default() -> (p: NodePattern)
        ensures
            p@.labels == Set::<Seq<char>>::empty(),
            p@.props == Map::<Seq<char>, PropValue>::empty(),
    {
        NodePattern::new()
    }
}

/// What a pattern asks of a node.
#[verifier::ext_equal]
pub struct PatternView {
    pub labels: Set<Seq<char>>,
    pub props: Map<Seq<char>, PropValue>,
}

impl View for NodePattern {
    type V = PatternView;

    open spec fn view(&self) -> PatternView {
        PatternView { labels: self.labels@, props: self.required_props@ }
    }
}

impl NodePattern {
    /// The pattern that every node matches.
    pub fn new() -> (p: NodePattern)
        ensures
            p@.labels == Set::<Seq<char>>::empty(),
            p@.props == Map::<Seq<char>, PropValue>::empty(),
    {
        NodePattern { labels: LabelSet::new(), required_props: PropMap::new() }
    }

    /// The pattern that also requires `label`.
    pub fn with_label(self, label: &str) -> (p: NodePattern)
        ensures
            p@.labels == self@.labels.insert(label@),
            p@.props == self@.props,
    {
        let mut s = self;
        s.labels.insert(String::from_str(label));
        s
    }

    /// The pattern that also requires property `key` to equal `value`.
    pub fn with_prop(self, key: &str, value: Value) -> (p: NodePattern)
        ensures
            p@.labels == self@.labels,
            p@.props == self@.props.insert(key@, value@),
    {
        let mut s = self;
        s.required_props.insert(String::from_str(key), value);
        s
    }

    /// A copy of the pattern.
    pub fn copy(&self) -> (p: NodePattern)
        ensures
            p@ == self@,
    {
        NodePattern { labels: self.labels.copy(), required_props: self.required_props.copy() }
    }
}

/// What a node is: its owner, labels and properties.
#[verifier::ext_equal]
pub struct NodeView {
    pub owner: u64,
    pub labels: Set<Seq<char>>,
    pub props: Map<Seq<char>, PropValue>,
}

/// A node matches a pattern when it carries all its labels and holds all
/// its properties with equal values.
pub open spec fn node_matches(n: NodeView, p: PatternView) -> bool {
    &&& p.labels.subset_of(n.labels)
    &&& forall|k: Seq<char>| #[trigger] p.props.contains_key(k) ==> n.props.contains_key(k)
        && n.props[k] == p.props[k]
}

/// A graph node with labels, properties, and an owner bundle.
#[derive(Debug)]
pub struct Node {
    pub id: NodeId,
    pub labels: LabelSet,
    pub props: PropMap,
    pub owner: BundleId,
}

impl View for Node {
    type V = NodeView;

    open spec fn view(&self) -> NodeView {
        NodeView { owner: self.owner.0, labels: self.labels@, props: self.props@ }
    }
}

impl Node {
    /// Whether the node carries `label`.
    pub fn has_label(&self, label: &str) -> (r: bool)
        ensures
            r == self@.labels.contains(label@),
    {
        self.labels.contains(label)
    }

    /// Whether the node matches `pattern`.
    pub fn matches_pattern(&self, pattern: &NodePattern) -> (r: bool)
        ensures
            r == node_matches(self@, pattern@),
    {
        if !pattern.labels.is_subset(&self.labels) {
            return false;
        }
        let r = pattern.required_props.all_present_in(&self.props);
        proof {
            let p = pattern@.props;
            let n = self@.props;
            if r {
                assert forall|k: Seq<char>| #[trigger] p.contains_key(k) implies n.contains_key(k)
                    && n[k] == p[k] by {
                    assert(pattern.required_props@.contains_key(k));
                }
            } else {
                let k = choose|k: Seq<char>|
                    !(#[trigger] pattern.required_props@.contains_key(k) ==> self.props@.contains_key(k)
                        && self.props@[k] == pattern.required_props@[k]);
                assert(p.contains_key(k));
            }
        }
        r
    }
}

/// What an edge is.
#[verifier::ext_equal]
pub struct EdgeView {
    pub kind: Seq<char>,
    pub from: u64,
    pub to: u64,
    pub props: Map<Seq<char>, PropValue>,
    pub owner: u64,
}

/// A graph edge.
#[derive(Debug)]
pub struct Edge {
    pub id: EdgeId,
    pub kind: String,
    pub from: NodeId,
    pub to: NodeId,
    pub props: PropMap,
    pub owner: BundleId,
}

impl View for Edge {
    type V = EdgeView;

    open spec fn view(&self) -> EdgeView {
        EdgeView {
            kind: self.kind@,
            from: self.from.0,
            to: self.to.0,
            props: self.props@,
            owner: self.owner.0,
        }
    }
}

/// Reasons a watch fired.
#[derive(Debug, Clone, Copy, PartialEq, Eq, Structural)]
pub enum WatchReason {
    NodeCreated,
    PropertiesChanged,
    EdgeCreated(EdgeId),
}

/// Event delivered to bundles for matching watches.
#[derive(Debug, Clone, Copy, PartialEq, Eq, Structural)]
pub struct WatchEvent {
    pub watch_id: WatchId,
    pub node_id: NodeId,
    pub reason: WatchReason,
}

/// Errors returned by graph operations.
#[derive(Debug, Clone, Copy, PartialEq, Eq, Structural)]
pub enum GraphError {
    NodeNotFound,
    EdgeNotFound,
    Forbidden,
    WatchNotFound,
}

/// The whole state of a graph.
#[verifier::ext_equal]
pub struct GraphView {
    /// Node `i` has id `i`.
    pub nodes: Seq<NodeView>,
    /// Edge `i` has id `i`.
    pub edges: Seq<EdgeView>,
    /// The node that stands for each bundle that has one.
    pub bundle_nodes: Map<u64, u64>,
    /// Watch `i` has id `i`: its owner and pattern.
    pub watches: Seq<(u64, PatternView)>,
    /// Undelivered watch events in the order they fired, each with the
    /// bundle it is for.
    pub events: Seq<(u64, WatchEvent)>,
}

impl GraphView {
    /// Whether the graph holds an edge of `kind` from `from` to `to`.
    pub open spec fn has_edge(self, kind: Seq<char>, from: u64, to: u64) -> bool {
        exists|i: int|
            0 <= i < self.edges.len() && (#[trigger] self.edges[i]).kind == kind && self.edges[i].from
                == from && self.edges[i].to == to
    }

    /// Whether the bundle owns the node, directly or through an `owns` edge
    /// from its bundle node.
    pub open spec fn owned_by(self, b: u64, n: u64) -> bool {
        ||| self.nodes[n as int].owner == b
        ||| self.bundle_nodes.contains_key(b) && self.has_edge("owns"@, self.bundle_nodes[b], n)
    }

    /// Whether the bundle may read the node: it owns it directly or holds a
    /// `CAN_READ` edge to it.
    pub open spec fn can_read(self, b: u64, n: u64) -> bool {
        ||| self.nodes[n as int].owner == b
        ||| self.bundle_nodes.contains_key(b) && self.has_edge("CAN_READ"@, self.bundle_nodes[b], n)
    }

    /// Whether the bundle holds a `CAN_WRITE` edge to the node.
    pub open spec fn can_write(self, b: u64, n: u64) -> bool {
        self.bundle_nodes.contains_key(b) && self.has_edge("CAN_WRITE"@, self.bundle_nodes[b], n)
    }

    /// Whether the bundle holds a `CAN_LINK` edge that allows an edge of
    /// `kind` from `from` to `to`.
    pub open spec fn can_link(self, b: u64, kind: Seq<char>, from: u64, to: u64) -> bool {
        self.bundle_nodes.contains_key(b) && exists|i: int|
            0 <= i < self.edges.len() && link_allows(
                #[trigger] self.edges[i],
                self.bundle_nodes[b],
                kind,
                from,
                to,
            )
    }

    /// Whether a watch of `owner` with `pattern` fires for a change that
    /// `bundle` made to `node`.
    pub open spec fn fires(self, owner: u64, pattern: PatternView, bundle: u64, node: u64) -> bool {
        &&& node < self.nodes.len()
        &&& owner == bundle || self.can_read(owner, node)
        &&& node_matches(self.nodes[node as int], pattern)
    }

    /// The events that the first `n` watches raise for a change to `node`.
    pub open spec fn fired_upto(
        self,
        n: int,
        bundle: u64,
        node: u64,
        reason: WatchReason,
    ) -> Seq<(u64, WatchEvent)>
        decreases n,
    {
        if n <= 0 {
            Seq::empty()
        } else {
            let prev = self.fired_upto(n - 1, bundle, node, reason);
            let w = self.watches[n - 1];
            if self.fires(w.0, w.1, bundle, node) {
                prev.push(
                    (w.0, WatchEvent { watch_id: WatchId((n - 1) as u64), node_id: NodeId(node), reason }),
                )
            } else {
                prev
            }
        }
    }

    /// The graph after the watches react to a change that `bundle` made to
    /// `node`.
    pub open spec fn enqueue(self, bundle: u64, node: u64, reason: WatchReason) -> GraphView {
        GraphView {
            events: self.events + self.fired_upto(self.watches.len() as int, bundle, node, reason),
            ..self
        }
    }

    /// The graph with one more node.
    pub open spec fn add_node(self, n: NodeView) -> GraphView {
        GraphView { nodes: self.nodes.push(n), ..self }
    }

    /// The graph with one more edge.
    pub open spec fn add_edge(self, e: EdgeView) -> GraphView {
        GraphView { edges: self.edges.push(e), ..self }
    }

    /// The graph in which `bundle` has a bundle node, and that node.
    pub open spec fn ensure_bundle(self, bundle: u64, name: Option<Seq<char>>) -> (GraphView, u64) {
        if self.bundle_nodes.contains_key(bundle) {
            (self, self.bundle_nodes[bundle])
        } else {
            let id = self.nodes.len() as u64;
            let props = match name {
                Some(n) => Map::empty().insert("name"@, PropValue::Text(n)),
                None => Map::empty(),
            };
            let node = NodeView { owner: bundle, labels: Set::empty().insert("Bundle"@), props };
            (
                GraphView { bundle_nodes: self.bundle_nodes.insert(bundle, id), ..self.add_node(node) },
                id,
            )
        }
    }

    /// The graph after `bundle` creates a node with `labels` and `props`:
    /// the node, its bundle node, the `owns` edge, then the watch events.
    pub open spec fn fiat(
        self,
        bundle: u64,
        labels: Set<Seq<char>>,
        props: Map<Seq<char>, PropValue>,
    ) -> GraphView {
        let id = self.nodes.len() as u64;
        let g1 = self.add_node(NodeView { owner: bundle, labels, props });
        let (g2, bn) = g1.ensure_bundle(bundle, None);
        let g3 = g2.add_edge(
            EdgeView { kind: "owns"@, from: bn, to: id, props: Map::empty(), owner: bundle },
        );
        g3.enqueue(bundle, id, WatchReason::NodeCreated)
    }

    /// The ids of the first `n` nodes that `bundle` may read and that match.
    pub open spec fn visible_upto(self, bundle: u64, p: PatternView, n: int) -> Seq<NodeId>
        decreases n,
    {
        if n <= 0 {
            Seq::empty()
        } else {
            let prev = self.visible_upto(bundle, p, n - 1);
            if self.can_read(bundle, (n - 1) as u64) && node_matches(self.nodes[n - 1], p) {
                prev.push(NodeId((n - 1) as u64))
            } else {
                prev
            }
        }
    }

    /// The events queued for `bundle`, in order.
    pub open spec fn queue_of(self, bundle: u64) -> Seq<WatchEvent> {
        events_for(self.events, bundle)
    }
}

/// The events of `evs` for `bundle`, in order.
pub open spec fn events_for(evs: Seq<(u64, WatchEvent)>, bundle: u64) -> Seq<WatchEvent>
    decreases evs.len(),
{
    if evs.len() == 0 {
        Seq::empty()
    } else {
        let prev = events_for(evs.drop_last(), bundle);
        if evs.last().0 == bundle {
            prev.push(evs.last().1)
        } else {
            prev
        }
    }
}

/// The events of `evs` for bundles other than `bundle`, in order.
pub open spec fn events_not_for(evs: Seq<(u64, WatchEvent)>, bundle: u64) -> Seq<(u64, WatchEvent)>
    decreases evs.len(),
{
    if evs.len() == 0 {
        Seq::empty()
    } else {
        let prev = events_not_for(evs.drop_last(), bundle);
        if evs.last().0 != bundle {
            prev.push(evs.last())
        } else {
            prev
        }
    }
}

/// Whether a `CAN_LINK` edge from bundle node `bn` allows an edge of
/// `kind` from `from` to `to`: its `kind` property names the kind and its
/// `target` property names `to`.
pub open spec fn link_allows(e: EdgeView, bn: u64, kind: Seq<char>, from: u64, to: u64) -> bool {
    &&& e.kind == "CAN_LINK"@
    &&& e.props.contains_key("kind"@)
    &&& e.props["kind"@] == PropValue::Text(kind)
    &&& e.from == bn
    &&& e.to == from
    &&& e.props.contains_key("target"@)
    &&& e.props["target"@] == PropValue::U128(to as u128)
}

} // verus!

verus! {

/// In-memory graph: nodes, edges, bundle nodes, watches and pending watch
/// events.
#[derive(Debug)]
pub struct Graph {
    nodes: Vec<Node>,
    edges: Vec<Edge>,
    bundle_nodes: Vec<(BundleId, NodeId)>,
    watches: Vec<(BundleId, NodePattern)>,
    watch_events: Vec<(BundleId, WatchEvent)>,
}

/// The bundle-node pairs as plain ids.
pub open spec fn bundle_pairs(s: Seq<(BundleId, NodeId)>) -> Seq<(u64, u64)> {
    s.map_values(|e: (BundleId, NodeId)| (e.0.0, e.1.0))
}

impl View for Graph {
    type V = GraphView;

    closed spec fn view(&self) -> GraphView {
        GraphView {
            nodes: self.nodes@.map_values(|n: Node| n@),
            edges: self.edges@.map_values(|e: Edge| e@),
            bundle_nodes: fold_map(bundle_pairs(self.bundle_nodes@)),
            watches: self.watches@.map_values(|w: (BundleId, NodePattern)| (w.0.0, w.1@)),
            events: self.watch_events@.map_values(|e: (BundleId, WatchEvent)| (e.0.0, e.1)),
        }
    }
}

impl Graph {
    /// Ids match positions and every bundle node exists.
    pub closed spec fn wf(&self) -> bool {
        &&& forall|i: int| 0 <= i < self.nodes@.len() ==> (#[trigger] self.nodes@[i]).id.0 == i
        &&& forall|i: int| 0 <= i < self.edges@.len() ==> (#[trigger] self.edges@[i]).id.0 == i
        &&& keys_unique(bundle_pairs(self.bundle_nodes@))
        &&& forall|j: int|
            0 <= j < self.bundle_nodes@.len() ==> (#[trigger] self.bundle_nodes@[j]).1.0
                < self.nodes@.len()
    }

    /// Every bundle node of a well-formed graph exists.
    pub proof fn lemma_bundle_nodes_exist(&self, b: u64)
        requires
            self.wf(),
            self@.bundle_nodes.contains_key(b),
        ensures
            self@.bundle_nodes[b] < self@.nodes.len(),
    {
        let s = bundle_pairs(self.bundle_nodes@);
        lemma_fold_dom(s, b);
        let j = choose|j: int| 0 <= j < s.len() && s[j].0 == b;
        lemma_fold_index(s, j);
        assert(self.bundle_nodes@[j].1.0 < self.nodes@.len());
    }

    /// Create an empty graph.
    pub fn new() -> (g: Graph)
        ensures
            g.wf(),
            g@ == Graph::new_view(),
            g@.nodes == Seq::<NodeView>::empty(),
            g@.edges == Seq::<EdgeView>::empty(),
            g@.bundle_nodes == Map::<u64, u64>::empty(),
            g@.watches == Seq::<(u64, PatternView)>::empty(),
            g@.events == Seq::<(u64, WatchEvent)>::empty(),
    {
        let g = Graph {
            nodes: Vec::new(),
            edges: Vec::new(),
            bundle_nodes: Vec::new(),
            watches: Vec::new(),
            watch_events: Vec::new(),
        };
        proof {
            assert(g@.nodes =~= Seq::<NodeView>::empty());
            assert(g@.edges =~= Seq::<EdgeView>::empty());
            assert(bundle_pairs(g.bundle_nodes@) =~= Seq::<(u64, u64)>::empty());
            assert(g@.watches =~= Seq::<(u64, PatternView)>::empty());
            assert(g@.events =~= Seq::<(u64, WatchEvent)>::empty());
        }
        g
    }

    /// The state of an empty graph.
    pub open spec fn new_view() -> GraphView {
        GraphView {
            nodes: Seq::empty(),
            edges: Seq::empty(),
            bundle_nodes: Map::empty(),
            watches: Seq::empty(),
            events: Seq::empty(),
        }
    }

    /// Number of nodes.
    pub fn node_count(&self) -> (n: usize)
        ensures
            n == self@.nodes.len(),
    {
        self.nodes.len()
    }

    /// Number of edges.
    pub fn edge_count(&self) -> (n: usize)
        ensures
            n == self@.edges.len(),
    {
        self.edges.len()
    }

    fn bundle_node_id_opt(&self, bundle: BundleId) -> (r: Option<NodeId>)
        requires
            self.wf(),
        ensures
            r matches Some(n) ==> self@.bundle_nodes.contains_key(bundle.0) && self@.bundle_nodes[bundle.0]
                == n.0,
            r is None ==> !self@.bundle_nodes.contains_key(bundle.0),
    {
        let ghost s = bundle_pairs(self.bundle_nodes@);
        let mut i: usize = 0;
        while i < self.bundle_nodes.len()
            invariant
                i <= self.bundle_nodes@.len(),
                s == bundle_pairs(self.bundle_nodes@),
                keys_unique(s),
                forall|j: int| 0 <= j < i ==> s[j].0 != bundle.0,
            decreases self.bundle_nodes@.len() - i,
        {
            if self.bundle_nodes[i].0.0 == bundle.0 {
                proof {
                    lemma_fold_index(s, i as int);
                }
                return Some(self.bundle_nodes[i].1);
            }
            i = i + 1;
        }
        proof {
            lemma_fold_dom(s, bundle.0);
        }
        None
    }

    /// Whether the graph holds an edge of `kind` from `from` to `to`.
    pub fn has_edge(&self, kind: &str, from: NodeId, to: NodeId) -> (r: bool)
        ensures
            r == self@.has_edge(kind@, from.0, to.0),
    {
        let ghost ev = self@.edges;
        let mut i: usize = 0;
        while i < self.edges.len()
            invariant
                i <= self.edges@.len(),
                ev == self@.edges,
                forall|j: int|
                    0 <= j < i ==> !((#[trigger] ev[j]).kind == kind@ && ev[j].from == from.0 && ev[j].to
                        == to.0),
            decreases self.edges@.len() - i,
        {
            let e = &self.edges[i];
            if e.from.0 == from.0 && e.to.0 == to.0 && str_eq(e.kind.as_str(), kind) {
                proof {
                    assert(ev[i as int] == e@);
                }
                return true;
            }
            proof {
                assert(ev[i as int] == e@);
            }
            i = i + 1;
        }
        false
    }

    /// Whether `bundle` owns the node, directly or through an `owns` edge;
    /// `NodeNotFound` when the node does not exist.
    pub fn is_owned_by(&self, bundle: BundleId, node_id: NodeId) -> (r: Result<bool, GraphError>)
        requires
            self.wf(),
        ensures
            node_id.0 >= self@.nodes.len() ==> r == Err::<bool, GraphError>(GraphError::NodeNotFound),
            node_id.0 < self@.nodes.len() ==> r == Ok::<bool, GraphError>(
                self@.owned_by(bundle.0, node_id.0),
            ),
    {
        if node_id.0 >= self.nodes.len() as u64 {
            return Err(GraphError::NodeNotFound);
        }
        let node = &self.nodes[node_id.0 as usize];
        proof {
            assert(self@.nodes[node_id.0 as int] == node@);
        }
        if node.owner.0 == bundle.0 {
            return Ok(true);
        }
        match self.bundle_node_id_opt(bundle) {
            None => Ok(false),
            Some(bn) => Ok(self.has_edge("owns", bn, node_id)),
        }
    }

    /// Whether `bundle` may read `node`: it owns it directly or holds a
    /// `CAN_READ` edge to it.
    pub fn can_read_node(&self, bundle: BundleId, node: &Node) -> (r: Result<bool, GraphError>)
        requires
            self.wf(),
        ensures
            r == Ok::<bool, GraphError>(
                node.owner.0 == bundle.0 || (self@.bundle_nodes.contains_key(bundle.0)
                    && self@.has_edge("CAN_READ"@, self@.bundle_nodes[bundle.0], node.id.0)),
            ),
    {
        if node.owner.0 == bundle.0 {
            return Ok(true);
        }
        match self.bundle_node_id_opt(bundle) {
            None => Ok(false),
            Some(bn) => Ok(self.has_edge("CAN_READ", bn, node.id)),
        }
    }

    /// Whether `bundle` holds a `CAN_WRITE` edge to the node.
    pub fn can_write(&self, bundle: BundleId, node_id: NodeId) -> (r: Result<bool, GraphError>)
        requires
            self.wf(),
        ensures
            r == Ok::<bool, GraphError>(self@.can_write(bundle.0, node_id.0)),
    {
        match self.bundle_node_id_opt(bundle) {
            None => Ok(false),
            Some(bn) => Ok(self.has_edge("CAN_WRITE", bn, node_id)),
        }
    }

    /// Whether `bundle` holds a `CAN_LINK` edge allowing an edge of `kind`
    /// from `from` to `to`.
    pub fn can_link(&self, bundle: BundleId, kind: &str, from: NodeId, to: NodeId) -> (r: Result<
        bool,
        GraphError,
    >)
        requires
            self.wf(),
        ensures
            r == Ok::<bool, GraphError>(self@.can_link(bundle.0, kind@, from.0, to.0)),
    {
        let bn = match self.bundle_node_id_opt(bundle) {
            None => {
                return Ok(false);
            },
            Some(bn) => bn,
        };
        let ghost ev = self@.edges;
        let mut i: usize = 0;
        while i < self.edges.len()
            invariant
                i <= self.edges@.len(),
                ev == self@.edges,
                self@.bundle_nodes.contains_key(bundle.0),
                self@.bundle_nodes[bundle.0] == bn.0,
                forall|j: int| 0 <= j < i ==> !link_allows(#[trigger] ev[j], bn.0, kind@, from.0, to.0),
            decreases self.edges@.len() - i,
        {
            let e = &self.edges[i];
            proof {
                assert(ev[i as int] == e@);
            }
            if e.from.0 == bn.0 && e.to.0 == from.0 && str_eq(e.kind.as_str(), "CAN_LINK") {
                let kind_ok = match e.props.get("kind") {
                    Some(v) => v.same_as(&Value::from_text(kind)),
                    None => false,
                };
                let target_ok = match e.props.get("target") {
                    Some(v) => v.same_as(&Value::U128(to.0 as u128)),
                    None => false,
                };
                if kind_ok && target_ok {
                    return Ok(true);
                }
            }
            i = i + 1;
        }
        Ok(false)
    }
}

} // verus!

verus! {

/// The characters of an optional name.
pub open spec fn opt_chars(name: Option<&str>) -> Option<Seq<char>> {
    match name {
        Some(n) => Some(n@),
        None => None,
    }
}

impl GraphView {
    /// Why an edge of `kind` from `from` to `to` may not be created by
    /// `bundle`, if it may not: a missing endpoint, or neither endpoint
    /// owned and no `CAN_LINK` edge allowing it.
    pub open spec fn link_refusal(self, b: u64, kind: Seq<char>, from: u64, to: u64) -> Option<
        GraphError,
    > {
        if from >= self.nodes.len() || to >= self.nodes.len() {
            Some(GraphError::NodeNotFound)
        } else if !(self.owned_by(b, from) || self.owned_by(b, to) || self.can_link(b, kind, from, to)) {
            Some(GraphError::Forbidden)
        } else {
            None
        }
    }

    /// Why `bundle` may not set properties on `node`, if it may not.
    pub open spec fn write_refusal(self, b: u64, node: u64) -> Option<GraphError> {
        if node >= self.nodes.len() {
            Some(GraphError::NodeNotFound)
        } else if !(self.owned_by(b, node) || self.can_write(b, node)) {
            Some(GraphError::Forbidden)
        } else {
            None
        }
    }

    /// The graph with the properties of `node` merged with `props`.
    pub open spec fn set_node_props(self, node: u64, props: Map<Seq<char>, PropValue>) -> GraphView {
        let n = self.nodes[node as int];
        GraphView {
            nodes: self.nodes.update(
                node as int,
                NodeView { props: n.props.union_prefer_right(props), ..n },
            ),
            ..self
        }
    }

    /// The properties a capability grant records: a `CAN_LINK` grant
    /// without a `target` property gets one naming the link target.
    pub open spec fn grant_props(
        kind: Seq<char>,
        props: Map<Seq<char>, PropValue>,
        target: u64,
    ) -> Map<Seq<char>, PropValue> {
        if kind == "CAN_LINK"@ && !props.contains_key("target"@) {
            props.insert("target"@, PropValue::U128(target as u128))
        } else {
            props
        }
    }
}

impl Graph {
    fn push_node(&mut self, labels: LabelSet, props: PropMap, owner: BundleId) -> (id: NodeId)
        requires
            old(self).wf(),
        ensures
            final(self).wf(),
            id.0 == old(self)@.nodes.len(),
            final(self)@ == old(self)@.add_node(
                NodeView { owner: owner.0, labels: labels@, props: props@ },
            ),
    {
        let id = NodeId(self.nodes.len() as u64);
        let ghost nv = NodeView { owner: owner.0, labels: labels@, props: props@ };
        let node = Node { id, labels, props, owner };
        self.nodes.push(node);
        proof {
            assert(self@.nodes =~= old(self)@.nodes.push(nv));
            assert(self@ =~= old(self)@.add_node(nv));
            assert forall|j: int| 0 <= j < self.bundle_nodes@.len() implies (#[trigger] self.bundle_nodes@[j]).1.0
                < self.nodes@.len() by {
                assert(old(self).bundle_nodes@[j].1.0 < old(self).nodes@.len());
            }
        }
        id
    }

    fn push_edge(&mut self, bundle: BundleId, kind: String, from: NodeId, to: NodeId, props: PropMap) -> (id:
        EdgeId)
        requires
            old(self).wf(),
        ensures
            final(self).wf(),
            id.0 == old(self)@.edges.len(),
            final(self)@ == old(self)@.add_edge(
                EdgeView { kind: kind@, from: from.0, to: to.0, props: props@, owner: bundle.0 },
            ),
    {
        let id = EdgeId(self.edges.len() as u64);
        let ghost ev = EdgeView { kind: kind@, from: from.0, to: to.0, props: props@, owner: bundle.0 };
        let edge = Edge { id, kind, from, to, props, owner: bundle };
        self.edges.push(edge);
        proof {
            assert(self@.edges =~= old(self)@.edges.push(ev));
            assert(self@ =~= old(self)@.add_edge(ev));
        }
        id
    }

    /// Create (or return) the node that represents the bundle itself.
    pub fn ensure_bundle_node(&mut self, bundle: BundleId, name: Option<&str>) -> (id: NodeId)
        requires
            old(self).wf(),
        ensures
            final(self).wf(),
            (final(self)@, id.0) == old(self)@.ensure_bundle(bundle.0, opt_chars(name)),
    {
        if let Some(id) = self.bundle_node_id_opt(bundle) {
            return id;
        }
        let mut labels = LabelSet::new();
        labels.insert(String::from_str("Bundle"));
        let mut props = PropMap::new();
        if let Some(name) = name {
            props.insert(String::from_str("name"), Value::from_text(name));
        }
        let ghost pv = props@;
        let node_id = self.push_node(labels, props, bundle);
        let ghost mid = self@;
        let ghost before = bundle_pairs(self.bundle_nodes@);
        let ghost bvec = self.bundle_nodes@;
        proof {
            lemma_push_unique(before, bundle.0, node_id.0);
        }
        self.bundle_nodes.push((bundle, node_id));
        proof {
            assert(bundle_pairs(self.bundle_nodes@) =~= before.push((bundle.0, node_id.0)));
            let pr = match opt_chars(name) {
                Some(n) => Map::empty().insert("name"@, PropValue::Text(n)),
                None => Map::<Seq<char>, PropValue>::empty(),
            };
            assert(pv =~= pr);
            assert(Set::<Seq<char>>::empty().insert("Bundle"@) =~= Set::empty().insert("Bundle"@));
            assert(self@ =~= GraphView { bundle_nodes: old(self)@.bundle_nodes.insert(bundle.0, node_id.0), ..mid });
            assert forall|j: int| 0 <= j < self.bundle_nodes@.len() implies (#[trigger] self.bundle_nodes@[j]).1.0
                < self.nodes@.len() by {
                assert(self.nodes@.len() == self@.nodes.len());
                if j < self.bundle_nodes@.len() - 1 {
                    assert(self.bundle_nodes@[j] == bvec[j]);
                    assert(bvec[j].1.0 < mid.nodes.len());
                } else {
                    assert(self.bundle_nodes@[j].1 == node_id);
                }
            }
        }
        node_id
    }

    fn enqueue_watch_events(&mut self, bundle: BundleId, node_id: NodeId, reason: WatchReason)
        requires
            old(self).wf(),
        ensures
            final(self).wf(),
            final(self)@ == old(self)@.enqueue(bundle.0, node_id.0, reason),
    {
        let ghost g = old(self)@;
        let mut i: usize = 0;
        while i < self.watches.len()
            invariant
                self.wf(),
                i <= self.watches@.len(),
                self@ == (GraphView { events: g.events + g.fired_upto(i as int, bundle.0, node_id.0, reason), ..g }),
            decreases self.watches@.len() - i,
        {
            let owner = self.watches[i].0;
            proof {
                assert(g.watches[i as int] == (owner.0, self.watches@[i as int].1@));
            }
            let fire = if node_id.0 < self.nodes.len() as u64 {
                let node = &self.nodes[node_id.0 as usize];
                proof {
                    assert(self@.nodes[node_id.0 as int] == node@);
                    assert(node.id.0 == node_id.0);
                    assert(g.nodes[node_id.0 as int] == node@);
                }
                let visible = if owner.0 != bundle.0 {
                    match self.can_read_node(owner, node) {
                        Ok(b) => b,
                        Err(_) => false,
                    }
                } else {
                    true
                };
                proof {
                    assert(self@.edges == g.edges);
                    assert(self@.bundle_nodes == g.bundle_nodes);
                    assert(self@.nodes == g.nodes);
                    assert(self@.can_read(owner.0, node_id.0) == g.can_read(owner.0, node_id.0));
                    assert(visible == (owner.0 == bundle.0 || self@.can_read(owner.0, node_id.0)));
                }
                let m = node.matches_pattern(&self.watches[i].1);
                proof {
                    assert(m == node_matches(g.nodes[node_id.0 as int], g.watches[i as int].1));
                }
                visible && m
            } else {
                false
            };
            proof {
                assert(fire == g.fires(owner.0, g.watches[i as int].1, bundle.0, node_id.0));
            }
            let ghost before = self.watch_events@;
            if fire {
                let ev = WatchEvent { watch_id: WatchId(i as u64), node_id, reason };
                self.watch_events.push((owner, ev));
                proof {
                    assert(self.watch_events@.map_values(|e: (BundleId, WatchEvent)| (e.0.0, e.1))
                        =~= before.map_values(|e: (BundleId, WatchEvent)| (e.0.0, e.1)).push((owner.0, ev)));
                }
            }
            proof {
                assert(g.watches[i as int] == (owner.0, self.watches@[i as int].1@));
                assert(self@ =~= GraphView {
                    events: g.events + g.fired_upto(i + 1, bundle.0, node_id.0, reason),
                    ..g
                });
            }
            i = i + 1;
        }
    }
}

} // verus!

verus! {

impl Graph {
    /// Create a node on behalf of a bundle: the bundle owns it, gets a
    /// bundle node if it had none, an `owns` edge links the two, and
    /// matching watches fire with `NodeCreated`.
    pub fn fiat_node(&mut self, bundle: BundleId, labels: Vec<String>, props: PropMap) -> (r: Result<
        NodeId,
        GraphError,
    >)
        requires
            old(self).wf(),
        ensures
            final(self).wf(),
            r == Ok::<NodeId, GraphError>(NodeId(old(self)@.nodes.len() as u64)),
            final(self)@ == old(self)@.fiat(bundle.0, label_chars(labels@).to_set(), props@),
    {
        let mut labels_set = LabelSet::new();
        let mut i: usize = 0;
        while i < labels.len()
            invariant
                i <= labels@.len(),
                labels_set@ == label_chars(labels@.take(i as int)).to_set(),
            decreases labels@.len() - i,
        {
            labels_set.insert(labels[i].clone());
            proof {
                assert(label_chars(labels@.take(i + 1)) =~= label_chars(labels@.take(i as int)).push(
                    labels@[i as int]@,
                ));
                Seq::<Seq<char>>::lemma_to_set_insert_commutes(
                    label_chars(labels@.take(i as int)),
                    labels@[i as int]@,
                );
                assert(label_chars(labels@.take(i as int)) + seq![labels@[i as int]@] =~= label_chars(
                    labels@.take(i as int),
                ).push(labels@[i as int]@));
            }
            i = i + 1;
        }
        proof {
            assert(labels@.take(i as int) =~= labels@);
        }
        let node_id = self.push_node(labels_set, props, bundle);
        let bundle_node = self.ensure_bundle_node(bundle, None);
        self.push_edge(bundle, String::from_str("owns"), bundle_node, node_id, PropMap::new());
        self.enqueue_watch_events(bundle, node_id, WatchReason::NodeCreated);
        Ok(node_id)
    }

    /// Create an edge after enforcing ownership and capability rules: the
    /// bundle must own an endpoint or hold a `CAN_LINK` edge for it. Both
    /// endpoints' watches fire with `EdgeCreated`.
    pub fn link(&mut self, bundle: BundleId, kind: String, from: NodeId, to: NodeId, props: PropMap) -> (r:
        Result<EdgeId, GraphError>)
        requires
            old(self).wf(),
        ensures
            final(self).wf(),
            old(self)@.link_refusal(bundle.0, kind@, from.0, to.0) matches Some(e) ==> r == Err::<
                EdgeId,
                GraphError,
            >(e) && final(self)@ == old(self)@,
            old(self)@.link_refusal(bundle.0, kind@, from.0, to.0) is None ==> {
                let id = old(self)@.edges.len() as u64;
                &&& r == Ok::<EdgeId, GraphError>(EdgeId(id))
                &&& final(self)@ == old(self)@.add_edge(
                    EdgeView { kind: kind@, from: from.0, to: to.0, props: props@, owner: bundle.0 },
                ).enqueue(bundle.0, from.0, WatchReason::EdgeCreated(EdgeId(id))).enqueue(
                    bundle.0,
                    to.0,
                    WatchReason::EdgeCreated(EdgeId(id)),
                )
            },
    {
        let owns_from = match self.is_owned_by(bundle, from) {
            Ok(b) => b,
            Err(e) => {
                return Err(e);
            },
        };
        let owns_to = match self.is_owned_by(bundle, to) {
            Ok(b) => b,
            Err(e) => {
                return Err(e);
            },
        };
        let allowed = if owns_from || owns_to {
            true
        } else {
            match self.can_link(bundle, kind.as_str(), from, to) {
                Ok(b) => b,
                Err(e) => {
                    return Err(e);
                },
            }
        };
        if !allowed {
            return Err(GraphError::Forbidden);
        }
        let edge_id = self.push_edge(bundle, kind, from, to, props);
        self.enqueue_watch_events(bundle, from, WatchReason::EdgeCreated(edge_id));
        self.enqueue_watch_events(bundle, to, WatchReason::EdgeCreated(edge_id));
        Ok(edge_id)
    }

    /// Query nodes visible to the bundle that match a pattern, in id order.
    pub fn get_nodes(&self, bundle: BundleId, pattern: &NodePattern) -> (r: Result<Vec<NodeId>, GraphError>)
        requires
            self.wf(),
        ensures
            r matches Ok(v) && v@ == self@.visible_upto(bundle.0, pattern@, self@.nodes.len() as int),
    {
        let mut out: Vec<NodeId> = Vec::new();
        let mut i: usize = 0;
        while i < self.nodes.len()
            invariant
                self.wf(),
                i <= self.nodes@.len(),
                out@ == self@.visible_upto(bundle.0, pattern@, i as int),
            decreases self.nodes@.len() - i,
        {
            let node = &self.nodes[i];
            proof {
                assert(self@.nodes[i as int] == node@);
                assert(node.id.0 == i);
            }
            let readable = match self.can_read_node(bundle, node) {
                Ok(b) => b,
                Err(_) => false,
            };
            if readable && node.matches_pattern(pattern) {
                out.push(node.id);
            }
            i = i + 1;
        }
        Ok(out)
    }

    /// Retrieve the properties named by `keys` that the node holds, if the
    /// bundle may read the node.
    pub fn get_props(&self, bundle: BundleId, node_id: NodeId, keys: &[String]) -> (r: Result<
        PropMap,
        GraphError,
    >)
        requires
            self.wf(),
        ensures
            node_id.0 >= self@.nodes.len() ==> r matches Err(GraphError::NodeNotFound),
            node_id.0 < self@.nodes.len() && !self@.can_read(bundle.0, node_id.0) ==> r matches Err(
                GraphError::Forbidden,
            ),
            node_id.0 < self@.nodes.len() && self@.can_read(bundle.0, node_id.0) ==> (r matches Ok(m)
                && m@ == self@.nodes[node_id.0 as int].props.restrict(label_chars(keys@).to_set())),
    {
        if node_id.0 >= self.nodes.len() as u64 {
            return Err(GraphError::NodeNotFound);
        }
        let node = &self.nodes[node_id.0 as usize];
        proof {
            assert(self@.nodes[node_id.0 as int] == node@);
            assert(node.id.0 == node_id.0);
        }
        let readable = match self.can_read_node(bundle, node) {
            Ok(b) => b,
            Err(e) => {
                return Err(e);
            },
        };
        if !readable {
            return Err(GraphError::Forbidden);
        }
        Ok(node.props.restricted_to(keys))
    }

    /// Set properties on a node if ownership or write capability allows it;
    /// the node's watches fire with `PropertiesChanged`.
    pub fn set_props(&mut self, bundle: BundleId, node_id: NodeId, props: PropMap) -> (r: Result<(), GraphError>)
        requires
            old(self).wf(),
        ensures
            final(self).wf(),
            old(self)@.write_refusal(bundle.0, node_id.0) matches Some(e) ==> r == Err::<(), GraphError>(e)
                && final(self)@ == old(self)@,
            old(self)@.write_refusal(bundle.0, node_id.0) is None ==> r == Ok::<(), GraphError>(())
                && final(self)@ == old(self)@.set_node_props(node_id.0, props@).enqueue(
                bundle.0,
                node_id.0,
                WatchReason::PropertiesChanged,
            ),
    {
        let owned = match self.is_owned_by(bundle, node_id) {
            Ok(b) => b,
            Err(e) => {
                return Err(e);
            },
        };
        let writable = match self.can_write(bundle, node_id) {
            Ok(b) => b,
            Err(e) => {
                return Err(e);
            },
        };
        if !(owned || writable) {
            return Err(GraphError::Forbidden);
        }
        let ghost g = self@;
        proof {
            assert(node_id.0 < self.nodes@.len());
        }
        let count = self.nodes.len();
        assert(node_id.0 < count);
        let idx = node_id.0 as usize;
        let ghost before = self.nodes@;
        let ghost old_node = self.nodes@[idx as int];
        let mut node_props = PropMap::new();
        std::mem::swap(&mut node_props, &mut self.nodes[idx].props);
        node_props.merge(&props);
        std::mem::swap(&mut node_props, &mut self.nodes[idx].props);
        proof {
            assert(self.nodes@.len() == before.len());
            assert forall|j: int| 0 <= j < self.nodes@.len() && j != idx implies self.nodes@[j]
                == before[j] by {}
            assert(self.nodes@[idx as int].id == before[idx as int].id);
            assert(self.nodes@[idx as int].owner == old_node.owner);
            assert(self.nodes@[idx as int].labels == old_node.labels);
            assert(self.nodes@[idx as int].props@ == old_node.props@.union_prefer_right(props@));
            assert(g.nodes[idx as int] == old_node@);
            assert(g.nodes == before.map_values(|n: Node| n@));
            assert forall|j: int| 0 <= j < self@.nodes.len() implies self@.nodes[j] == g.set_node_props(
                node_id.0,
                props@,
            ).nodes[j] by {
                assert(self@.nodes[j] == self.nodes@[j]@);
                if j != idx {
                    assert(self.nodes@[j] == before[j]);
                } else {
                    let n = g.nodes[node_id.0 as int];
                    assert(g.set_node_props(node_id.0, props@).nodes[j] == (NodeView { props: n.props.union_prefer_right(props@), ..n }));
                    assert(n == old_node@);
                    assert(self.nodes@[j]@.owner == n.owner);
                    assert(self.nodes@[j]@.labels == n.labels);
                    assert(self.nodes@[j]@.props == n.props.union_prefer_right(props@));
                    assert(self@.nodes[j] =~= g.set_node_props(node_id.0, props@).nodes[j]);
                }
            }
            assert(self@.nodes =~= g.set_node_props(node_id.0, props@).nodes);
            assert(self@ =~= g.set_node_props(node_id.0, props@));
        }
        self.enqueue_watch_events(bundle, node_id, WatchReason::PropertiesChanged);
        Ok(())
    }

    /// Register a watch for a pattern; ids count up from zero.
    pub fn watch_register(&mut self, bundle: BundleId, pattern: NodePattern) -> (r: Result<
        WatchId,
        GraphError,
    >)
        requires
            old(self).wf(),
        ensures
            final(self).wf(),
            r == Ok::<WatchId, GraphError>(WatchId(old(self)@.watches.len() as u64)),
            final(self)@ == (GraphView {
                watches: old(self)@.watches.push((bundle.0, pattern@)),
                ..old(self)@
            }),
    {
        let id = WatchId(self.watches.len() as u64);
        let ghost pv = pattern@;
        self.watches.push((bundle, pattern));
        proof {
            assert(self@.watches =~= old(self)@.watches.push((bundle.0, pv)));
            assert(self@ =~= GraphView { watches: old(self)@.watches.push((bundle.0, pv)), ..old(self)@ });
        }
        Ok(id)
    }

    /// Retrieve and remove the queued watch events for a bundle, oldest
    /// first.
    pub fn watch_poll(&mut self, bundle: BundleId) -> (r: Vec<WatchEvent>)
        requires
            old(self).wf(),
        ensures
            final(self).wf(),
            r@ == old(self)@.queue_of(bundle.0),
            final(self)@ == (GraphView {
                events: events_not_for(old(self)@.events, bundle.0),
                ..old(self)@
            }),
    {
        let ghost evs = old(self)@.events;
        let mut out: Vec<WatchEvent> = Vec::new();
        let mut rest: Vec<(BundleId, WatchEvent)> = Vec::new();
        let mut i: usize = 0;
        while i < self.watch_events.len()
            invariant
                i <= self.watch_events@.len(),
                evs == self.watch_events@.map_values(|e: (BundleId, WatchEvent)| (e.0.0, e.1)),
                out@ == events_for(evs.take(i as int), bundle.0),
                rest@.map_values(|e: (BundleId, WatchEvent)| (e.0.0, e.1)) == events_not_for(
                    evs.take(i as int),
                    bundle.0,
                ),
            decreases self.watch_events@.len() - i,
        {
            let e = self.watch_events[i];
            let ghost before = rest@;
            if e.0.0 == bundle.0 {
                out.push(e.1);
            } else {
                rest.push(e);
                proof {
                    assert(rest@.map_values(|e: (BundleId, WatchEvent)| (e.0.0, e.1)) =~= before.map_values(
                        |e: (BundleId, WatchEvent)| (e.0.0, e.1),
                    ).push((e.0.0, e.1)));
                }
            }
            proof {
                assert(evs.take(i + 1).drop_last() =~= evs.take(i as int));
            }
            i = i + 1;
        }
        proof {
            assert(evs.take(i as int) =~= evs);
        }
        self.watch_events = rest;
        proof {
            assert(self@ =~= GraphView { events: events_not_for(evs, bundle.0), ..old(self)@ });
        }
        out
    }

    /// Grant a capability edge from the grantee's bundle node to a resource
    /// on behalf of the issuer, without ownership checks. A `CAN_LINK`
    /// grant records its link target (the resource unless one is given)
    /// as the `target` property when none is given.
    pub fn grant_capability_edge(
        &mut self,
        issuer: BundleId,
        grantee: BundleId,
        kind: &str,
        resource: NodeId,
        props: PropMap,
        link_target: Option<NodeId>,
    ) -> (r: Result<EdgeId, GraphError>)
        requires
            old(self).wf(),
        ensures
            final(self).wf(),
            ({
                let target = match link_target {
                    Some(t) => t.0,
                    None => resource.0,
                };
                let (g2, bn) = old(self)@.ensure_bundle(grantee.0, None);
                &&& r == Ok::<EdgeId, GraphError>(EdgeId(old(self)@.edges.len() as u64))
                &&& final(self)@ == g2.add_edge(
                    EdgeView {
                        kind: kind@,
                        from: bn,
                        to: resource.0,
                        props: GraphView::grant_props(kind@, props@, target),
                        owner: issuer.0,
                    },
                )
            }),
    {
        let mut props = props;
        if str_eq(kind, "CAN_LINK") {
            let to = match link_target {
                Some(t) => t,
                None => resource,
            };
            if !props.contains_key("target") {
                props.insert(String::from_str("target"), Value::U128(to.0 as u128));
            }
        }
        let from = self.ensure_bundle_node(grantee, None);
        let id = self.push_edge(issuer, String::from_str(kind), from, resource, props);
        Ok(id)
    }
}

} // verus!
