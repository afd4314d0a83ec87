//! The in-memory graph store of the host runtime: Things kept in order of
//! their ids, edges, and the revision and id counters.

use vstd::prelude::*;
use crate::abi::{SymbolMap, ValueView};
use crate::canon::Symbol;
use crate::records::{
    EdgeView, GraphEdge, GraphFiatRequest, GraphGetRequest, GraphLinkRequest, GraphPropsGetRequest,
    GraphPropsRequest, GraphThing, NodePattern, PatternView, ThingView, edges_view, things_view,
    spec_uuid_from_counter, uuid_from_counter,
};
use crate::symset::SymbolSet;

verus! {

broadcast use vstd::seq_lib::group_filter_ensures;

/// Things returned by one find-by-kind page, at most.
pub const FIND_PAGE_SIZE: usize = 64;

/// `n + 1`, wrapping at the top of `u64`.
pub open spec fn wrap_inc(n: u64) -> u64 {
    if n == u64::MAX {
        0
    } else {
        (n + 1) as u64
    }
}

/// `a + b`, wrapping at the top of `u64`.
pub open spec fn wrap_add(a: u64, b: u64) -> u64 {
    if a + b > u64::MAX {
        (a + b - 0x1_0000_0000_0000_0000) as u64
    } else {
        (a + b) as u64
    }
}

/// What the store holds.
pub struct StoreView {
    pub things: Seq<ThingView>,
    pub edges: Seq<EdgeView>,
    pub revision: u64,
    pub uuid_counter: u64,
}

/// Ids strictly increase along the sequence.
pub open spec fn ids_increasing(s: Seq<ThingView>) -> bool {
    forall|i: int, j: int| 0 <= i < j < s.len() ==> s[i].id < s[j].id
}

/// `s` with `t` in the place its id orders it at, replacing a Thing with the same id.
pub open spec fn upsert_thing(s: Seq<ThingView>, t: ThingView) -> Seq<ThingView>
    decreases s.len(),
{
    if s.len() == 0 {
        seq![t]
    } else if t.id < s[0].id {
        seq![t] + s
    } else if t.id == s[0].id {
        seq![t] + s.drop_first()
    } else {
        seq![s[0]] + upsert_thing(s.drop_first(), t)
    }
}

/// `s` with `e` replacing the first edge with its id, or appended.
pub open spec fn put_edge(s: Seq<EdgeView>, e: EdgeView) -> Seq<EdgeView>
    decreases s.len(),
{
    if s.len() == 0 {
        seq![e]
    } else if s[0].id == e.id {
        seq![e] + s.drop_first()
    } else {
        seq![s[0]] + put_edge(s.drop_first(), e)
    }
}

/// The first Thing with id `id`.
pub open spec fn find_thing(s: Seq<ThingView>, id: u128) -> Option<ThingView>
    decreases s.len(),
{
    if s.len() == 0 {
        None
    } else if s[0].id == id {
        Some(s[0])
    } else {
        find_thing(s.drop_first(), id)
    }
}

/// The id a new record gets, and the id counter after: the requested id, or
/// one made from the counter, which then advances.
pub open spec fn fresh_id(id: Option<u128>, counter: u64) -> (u128, u64) {
    match id {
        Some(i) => (i, counter),
        None => (spec_uuid_from_counter(counter), wrap_inc(counter)),
    }
}

/// The labels a new Thing carries: those asked for, or its kind when none are.
pub open spec fn fiat_labels(kind: u32, labels: Seq<u32>) -> Set<u32> {
    if labels.len() == 0 {
        set![kind]
    } else {
        labels.to_set()
    }
}

/// Whether a Thing has every label and property a pattern asks for.
pub open spec fn pattern_matches(t: ThingView, p: PatternView) -> bool {
    &&& forall|i: int| 0 <= i < p.labels.len() ==> t.labels.contains(#[trigger] p.labels[i])
    &&& forall|k: u32| #[trigger] p.props.contains_key(k) ==> t.fields.contains_key(k) && t.fields[k] == p.props[k]
}

/// Create (or replace) a Thing.
pub open spec fn store_fiat(
    s: StoreView,
    id: Option<u128>,
    kind: u32,
    labels: Seq<u32>,
    fields: Map<u32, ValueView>,
) -> (StoreView, ThingView) {
    let (tid, c) = fresh_id(id, s.uuid_counter);
    let t = ThingView {
        id: tid,
        kind,
        labels: fiat_labels(kind, labels),
        fields,
        owner: 0,
        revision: s.revision,
    };
    (StoreView { things: upsert_thing(s.things, t), edges: s.edges, revision: wrap_inc(s.revision), uuid_counter: c }, t)
}

/// Add (or replace) an edge.
pub open spec fn store_link(
    s: StoreView,
    id: Option<u128>,
    pred: Seq<char>,
    from: u128,
    to: u128,
    props: Map<u32, ValueView>,
) -> (StoreView, EdgeView) {
    let (eid, c) = fresh_id(id, s.uuid_counter);
    let e = EdgeView { id: eid, src: from, pred, dst: to, props, owner: 0, revision: s.revision };
    (StoreView { things: s.things, edges: put_edge(s.edges, e), revision: wrap_inc(s.revision), uuid_counter: c }, e)
}

/// The Things matching a pattern, in order of id.
pub open spec fn store_query(s: StoreView, p: PatternView) -> Seq<ThingView> {
    s.things.filter(|t: ThingView| pattern_matches(t, p))
}

/// Whether a Thing has id `k`.
pub open spec fn id_is(k: u128) -> spec_fn(ThingView) -> bool {
    |t: ThingView| t.id == k
}

/// The Thing with a given id, as a list of zero or one.
pub open spec fn store_get_id(s: StoreView, id: u128) -> Seq<ThingView> {
    s.things.filter(id_is(id))
}

/// One page of the Things, in order of id, and the cursor of the next page
/// when there is one. The in-memory store pages through every Thing,
/// whatever kind is named.
pub open spec fn store_find(s: StoreView, kind: Seq<char>, cursor: Option<u64>) -> (Seq<ThingView>, Option<u64>) {
    let m = s.things;
    let skip: u64 = match cursor {
        Some(c) => c,
        None => 0,
    };
    if skip >= m.len() {
        (Seq::empty(), None)
    } else if m.len() - skip > FIND_PAGE_SIZE {
        (m.subrange(skip as int, skip + FIND_PAGE_SIZE), Some(wrap_add(skip, FIND_PAGE_SIZE as u64)))
    } else {
        (m.subrange(skip as int, m.len() as int), None)
    }
}

/// The properties of a Thing: all of them when no key is named, else those
/// named; `None` when there is no such Thing.
pub open spec fn store_props_get(s: StoreView, node: u128, keys: Seq<u32>) -> Option<Map<u32, ValueView>> {
    match find_thing(s.things, node) {
        None => None,
        Some(t) => if keys.len() == 0 {
            Some(t.fields)
        } else {
            Some(t.fields.restrict(keys.to_set()))
        },
    }
}

/// Merge properties into a Thing, which gets a new revision; `None` when
/// there is no such Thing.
pub open spec fn store_props_set(s: StoreView, node: u128, props: Map<u32, ValueView>) -> Option<(StoreView, ThingView)> {
    match find_thing(s.things, node) {
        None => None,
        Some(t) => {
            let t2 = ThingView { fields: t.fields.union_prefer_right(props), revision: s.revision, ..t };
            Some((StoreView { things: upsert_thing(s.things, t2), revision: wrap_inc(s.revision), ..s }, t2))
        },
    }
}

/// Upserting into a sorted sequence keeps it sorted, and is an update in place
/// or an insertion at the first position whose id is not smaller.
proof fn lemma_upsert(s: Seq<ThingView>, t: ThingView, i: int)
    requires
        ids_increasing(s),
        0 <= i <= s.len(),
        forall|j: int| 0 <= j < i ==> s[j].id < t.id,
        i < s.len() ==> s[i].id >= t.id,
    ensures
        i < s.len() && s[i].id == t.id ==> upsert_thing(s, t) == s.update(i, t),
        !(i < s.len() && s[i].id == t.id) ==> upsert_thing(s, t) == s.insert(i, t),
        ids_increasing(upsert_thing(s, t)),
    decreases s.len(),
{
    if s.len() == 0 {
        assert(s.insert(i, t) =~= seq![t]);
    } else if i == 0 {
        if t.id == s[0].id {
            assert(seq![t] + s.drop_first() =~= s.update(0, t));
        } else {
            assert(seq![t] + s =~= s.insert(0, t));
        }
    } else {
        let r = s.drop_first();
        lemma_upsert(r, t, i - 1);
        if i < s.len() && s[i].id == t.id {
            assert(seq![s[0]] + r.update(i - 1, t) =~= s.update(i, t));
        } else {
            assert(seq![s[0]] + r.insert(i - 1, t) =~= s.insert(i, t));
        }
        let u = upsert_thing(s, t);
        assert forall|a: int, b: int| 0 <= a < b < u.len() implies u[a].id < u[b].id by {
            if a == 0 {
                let ur = upsert_thing(r, t);
                assert(u[b] == ur[b - 1]);
                if i < s.len() && s[i].id == t.id {
                    assert(ur == r.update(i - 1, t));
                    if b - 1 == i - 1 {
                    } else {
                        assert(s[0].id < s[b].id);
                    }
                } else {
                    assert(ur == r.insert(i - 1, t));
                    if b - 1 < i - 1 {
                        assert(s[0].id < s[b].id);
                    } else if b - 1 == i - 1 {
                    } else {
                        assert(s[0].id < s[b - 1].id);
                    }
                }
            }
        }
    }
}

/// Putting an edge whose id is first found at `i` updates it there; one whose
/// id is absent is appended.
proof fn lemma_put_edge(s: Seq<EdgeView>, e: EdgeView, i: int)
    requires
        0 <= i <= s.len(),
        forall|j: int| 0 <= j < i ==> s[j].id != e.id,
        i < s.len() ==> s[i].id == e.id,
    ensures
        i < s.len() ==> put_edge(s, e) == s.update(i, e),
        i == s.len() ==> put_edge(s, e) == s.push(e),
    decreases s.len(),
{
    if s.len() == 0 {
        assert(seq![e] =~= s.push(e));
    } else if i == 0 {
        assert(seq![e] + s.drop_first() =~= s.update(0, e));
    } else {
        lemma_put_edge(s.drop_first(), e, i - 1);
        if i < s.len() {
            assert(seq![s[0]] + s.drop_first().update(i - 1, e) =~= s.update(i, e));
        } else {
            assert(seq![s[0]] + s.drop_first().push(e) =~= s.push(e));
        }
    }
}

/// In a sorted sequence, the Thing found for an id is the one at its index.
proof fn lemma_find_thing(s: Seq<ThingView>, id: u128, i: int)
    requires
        0 <= i <= s.len(),
        forall|j: int| 0 <= j < i ==> s[j].id != id,
        i < s.len() ==> s[i].id == id,
    ensures
        i < s.len() ==> find_thing(s, id) == Some(s[i]),
        i == s.len() ==> find_thing(s, id) is None,
    decreases s.len(),
{
    if s.len() > 0 && i > 0 {
        lemma_find_thing(s.drop_first(), id, i - 1);
    }
}

/// The in-memory graph store.
pub struct InMemoryGraphStore {
    things: Vec<GraphThing>,
    edges: Vec<GraphEdge>,
    revision: u64,
    uuid_counter: u64,
}

impl View for InMemoryGraphStore {
    type V = StoreView;

    closed spec fn view(&self) -> StoreView {
        StoreView {
            things: things_view(self.things@),
            edges: edges_view(self.edges@),
            revision: self.revision,
            uuid_counter: self.uuid_counter,
        }
    }
}

/// Advance a wrapping counter, returning its value before.
fn take_next(counter: &mut u64) -> (v: u64)
    ensures
        v == *old(counter),
        *final(counter) == wrap_inc(*old(counter)),
{
    let v = *counter;
    *counter = counter.wrapping_add(1);
    v
}

impl InMemoryGraphStore {
    /// Things are kept in increasing order of id.
    pub closed spec fn wf(&self) -> bool {
        ids_increasing(self@.things)
    }

    /// A well-formed store has its Things in increasing order of id.
    pub proof fn lemma_wf(&self)
        requires
            self.wf(),
        ensures
            ids_increasing(self@.things),
    {
    }

    /// An empty store whose revisions start at 1.
    pub fn new() -> (s: InMemoryGraphStore)
        ensures
            s.wf(),
            s@.things == Seq::<ThingView>::empty(),
            s@.edges == Seq::<EdgeView>::empty(),
            s@.revision == 1,
            s@.uuid_counter == 0,
    {
        let s = InMemoryGraphStore { things: Vec::new(), edges: Vec::new(), revision: 1, uuid_counter: 0 };
        assert(s@.things =~= Seq::<ThingView>::empty());
        assert(s@.edges =~= Seq::<EdgeView>::empty());
        s
    }

    fn fresh(&mut self, id: Option<u128>) -> (r: u128)
        ensures
            (r, final(self)@.uuid_counter) == fresh_id(id, old(self)@.uuid_counter),
            final(self).things == old(self).things,
            final(self).edges == old(self).edges,
            final(self).revision == old(self).revision,
    {
        match id {
            Some(i) => i,
            None => {
                let n = take_next(&mut self.uuid_counter);
                uuid_from_counter(n)
            },
        }
    }

    fn put_thing(&mut self, t: GraphThing)
        requires
            old(self).wf(),
        ensures
            final(self).wf(),
            final(self)@ == (StoreView { things: upsert_thing(old(self)@.things, t@), ..old(self)@ }),
    {
        let ghost s = self@.things;
        let mut i: usize = 0;
        while i < self.things.len() && self.things[i].id < t.id
            invariant
                i <= self.things@.len(),
                s == things_view(self.things@),
                forall|j: int| 0 <= j < i ==> s[j].id < t.id,
            decreases self.things@.len() - i,
        {
            i = i + 1;
        }
        proof {
            lemma_upsert(s, t@, i as int);
        }
        let mut things: Vec<GraphThing> = Vec::new();
        std::mem::swap(&mut things, &mut self.things);
        if i < things.len() && things[i].id == t.id {
            things.set(i, t);
            proof {
                assert(things_view(things@) =~= s.update(i as int, t@));
            }
        } else {
            things.insert(i, t);
            proof {
                assert(things_view(things@) =~= s.insert(i as int, t@));
            }
        }
        self.things = things;
    }

    fn put_edge(&mut self, e: GraphEdge)
        ensures
            final(self)@ == (StoreView { edges: put_edge(old(self)@.edges, e@), ..old(self)@ }),
            final(self).things == old(self).things,
    {
        let ghost s = self@.edges;
        let mut i: usize = 0;
        while i < self.edges.len() && self.edges[i].id != e.id
            invariant
                i <= self.edges@.len(),
                s == edges_view(self.edges@),
                forall|j: int| 0 <= j < i ==> s[j].id != e.id,
            decreases self.edges@.len() - i,
        {
            i = i + 1;
        }
        proof {
            lemma_put_edge(s, e@, i as int);
        }
        if i < self.edges.len() {
            self.edges.set(i, e);
            proof {
                assert(edges_view(self.edges@) =~= s.update(i as int, e@));
            }
        } else {
            self.edges.push(e);
            proof {
                assert(edges_view(self.edges@) =~= s.push(e@));
            }
        }
    }

    /// Create (or replace) a Thing; with no labels it is labelled by its kind.
    pub fn fiat(&mut self, req: GraphFiatRequest) -> (t: GraphThing)
        requires
            old(self).wf(),
        ensures
            final(self).wf(),
            (final(self)@, t@) == store_fiat(
                old(self)@,
                req.id,
                req.kind.0,
                req.labels@.map_values(|s: Symbol| s.0),
                req.fields@,
            ),
    {
        let id = self.fresh(req.id);
        let revision = take_next(&mut self.revision);
        let mut labels = req.labels;
        if labels.len() == 0 {
            labels.push(req.kind);
            proof {
                assert(labels@.map_values(|s: Symbol| s.0) =~= seq![req.kind.0]);
                assert(seq![req.kind.0].to_set() =~= set![req.kind.0]) by {
                    assert(seq![req.kind.0] =~= Seq::<u32>::empty().push(req.kind.0));
                    Seq::<u32>::empty().lemma_push_to_set_commute(req.kind.0);
                    assert(Seq::<u32>::empty().to_set() =~= Set::<u32>::empty());
                }
            }
        }
        let labels_set = SymbolSet::from_symbols(&labels);
        let thing = GraphThing { id, kind: req.kind, labels: labels_set, fields: req.fields, owner: 0, revision };
        let out = thing.copy();
        self.put_thing(thing);
        out
    }

    /// Add (or replace) an edge.
    pub fn link(&mut self, req: GraphLinkRequest) -> (e: GraphEdge)
        requires
            old(self).wf(),
        ensures
            final(self).wf(),
            (final(self)@, e@) == store_link(old(self)@, req.id, req.pred@, req.from, req.to, req.props@),
    {
        let id = self.fresh(req.id);
        let revision = take_next(&mut self.revision);
        let edge = GraphEdge {
            id,
            src: req.from,
            pred: req.pred,
            dst: req.to,
            props: req.props,
            owner: 0,
            revision,
        };
        let out = edge.copy();
        self.put_edge(edge);
        out
    }

    /// Things with a given id, or matching a pattern, in order of id.
    pub fn get(&self, req: &GraphGetRequest) -> (r: Vec<GraphThing>)
        requires
            self.wf(),
        ensures
            things_view(r@) == (match req {
                GraphGetRequest::Thing(id) => store_get_id(self@, *id),
                GraphGetRequest::Pattern(p) => store_query(self@, p@),
            }),
    {
        match req {
            GraphGetRequest::Thing(id) => self.select_id(*id),
            GraphGetRequest::Pattern(p) => self.select_pattern(p),
        }
    }

    fn select_id(&self, id: u128) -> (r: Vec<GraphThing>)
        ensures
            things_view(r@) == store_get_id(self@, id),
    {
        let ghost s = self@.things;
        let mut out: Vec<GraphThing> = Vec::new();
        let mut i: usize = 0;
        while i < self.things.len()
            invariant
                i <= self.things@.len(),
                s == things_view(self.things@),
                things_view(out@) == s.take(i as int).filter(id_is(id)),
            decreases self.things@.len() - i,
        {
            proof {
                assert(s.take(i + 1) =~= s.take(i as int).push(s[i as int]));
                s.take(i as int).lemma_filter_push(s[i as int], id_is(id));
            }
            if self.things[i].id == id {
                let c = self.things[i].copy();
                out.push(c);
                proof {
                    assert(things_view(out@) =~= things_view(out@.drop_last()).push(c@));
                }
            }
            i = i + 1;
        }
        proof {
            assert(s.take(i as int) =~= s);
        }
        out
    }

    fn select_pattern(&self, p: &NodePattern) -> (r: Vec<GraphThing>)
        ensures
            things_view(r@) == store_query(self@, p@),
    {
        let ghost s = self@.things;
        let ghost pv = p@;
        let mut out: Vec<GraphThing> = Vec::new();
        let mut i: usize = 0;
        while i < self.things.len()
            invariant
                i <= self.things@.len(),
                s == things_view(self.things@),
                pv == p@,
                things_view(out@) == s.take(i as int).filter(|t: ThingView| pattern_matches(t, pv)),
            decreases self.things@.len() - i,
        {
            proof {
                assert(s.take(i + 1) =~= s.take(i as int).push(s[i as int]));
                s.take(i as int).lemma_filter_push(s[i as int], |t: ThingView| pattern_matches(t, pv));
            }
            if thing_matches(&self.things[i], p) {
                let c = self.things[i].copy();
                out.push(c);
                proof {
                    assert(things_view(out@) =~= things_view(out@.drop_last()).push(c@));
                }
            }
            i = i + 1;
        }
        proof {
            assert(s.take(i as int) =~= s);
        }
        out
    }

    /// One page of the Things, whatever kind is named.
    pub fn find_by_kind(&self, kind: &str, cursor: Option<u64>) -> (r: (Vec<GraphThing>, Option<u64>))
        requires
            self.wf(),
        ensures
            (things_view(r.0@), r.1) == store_find(self@, kind@, cursor),
    {
        let matches = &self.things;
        let skip: u64 = match cursor {
            Some(c) => c,
            None => 0,
        };
        let len = matches.len();
        if skip >= len as u64 {
            return (Vec::new(), None);
        }
        let start = skip as usize;
        let end = if len - start > FIND_PAGE_SIZE {
            start + FIND_PAGE_SIZE
        } else {
            len
        };
        let mut page: Vec<GraphThing> = Vec::new();
        let mut j: usize = start;
        while j < end
            invariant
                start <= j <= end <= matches@.len(),
                things_view(page@) == things_view(matches@).subrange(start as int, j as int),
            decreases end - j,
        {
            let c = matches[j].copy();
            let ghost before = page@;
            page.push(c);
            proof {
                assert(things_view(matches@)[j as int] == c@);
                assert(things_view(page@) =~= things_view(before).push(c@));
                assert(things_view(page@) =~= things_view(matches@).subrange(start as int, j + 1));
            }
            j = j + 1;
        }
        let next = if len - start > FIND_PAGE_SIZE {
            Some(skip.wrapping_add(FIND_PAGE_SIZE as u64))
        } else {
            None
        };
        (page, next)
    }

    fn locate(&self, node: u128) -> (r: Option<usize>)
        requires
            self.wf(),
        ensures
            r matches Some(i) ==> i < self.things@.len() && find_thing(self@.things, node) == Some(self@.things[i as int])
                && self.things@[i as int].id == node,
            r is None ==> find_thing(self@.things, node) is None,
    {
        let ghost s = self@.things;
        let mut i: usize = 0;
        while i < self.things.len()
            invariant
                i <= self.things@.len(),
                s == things_view(self.things@),
                forall|j: int| 0 <= j < i ==> s[j].id != node,
            decreases self.things@.len() - i,
        {
            if self.things[i].id == node {
                proof {
                    lemma_find_thing(s, node, i as int);
                }
                return Some(i);
            }
            i = i + 1;
        }
        proof {
            lemma_find_thing(s, node, i as int);
        }
        None
    }

    /// The properties of a Thing (all, or those named); `None` when there is no such Thing.
    pub fn props_get(&self, req: &GraphPropsGetRequest) -> (r: Option<SymbolMap>)
        requires
            self.wf(),
        ensures
            match r {
                Some(m) => store_props_get(self@, req.node, req.keys@.map_values(|k: Symbol| k.0)) == Some(m@),
                None => store_props_get(self@, req.node, req.keys@.map_values(|k: Symbol| k.0)) is None,
            },
    {
        match self.locate(req.node) {
            None => None,
            Some(i) => {
                if req.keys.len() == 0 {
                    Some(self.things[i].fields.copy())
                } else {
                    Some(self.things[i].fields.select(&req.keys))
                }
            },
        }
    }

    /// Merge properties into a Thing, giving it a new revision; `None` when there is no such Thing.
    pub fn props_set(&mut self, req: GraphPropsRequest) -> (r: Option<GraphThing>)
        requires
            old(self).wf(),
        ensures
            final(self).wf(),
            match r {
                Some(t) => store_props_set(old(self)@, req.node, req.props@) == Some((final(self)@, t@)),
                None => store_props_set(old(self)@, req.node, req.props@) is None && final(self)@ == old(self)@,
            },
    {
        match self.locate(req.node) {
            None => None,
            Some(i) => {
                let mut t = self.things[i].copy();
                t.fields.extend(&req.props);
                t.revision = take_next(&mut self.revision);
                let out = t.copy();
                self.put_thing(t);
                Some(out)
            },
        }
    }
}

/// Whether a Thing matches a pattern.
pub fn thing_matches(t: &GraphThing, p: &NodePattern) -> (r: bool)
    ensures
        r == pattern_matches(t@, p@),
{
    let ghost pv = p@;
    let mut i: usize = 0;
    while i < p.labels.len()
        invariant
            i <= p.labels@.len(),
            pv == p@,
            forall|j: int| 0 <= j < i ==> t@.labels.contains(#[trigger] pv.labels[j]),
        decreases p.labels@.len() - i,
    {
        if !t.labels.contains(&p.labels[i]) {
            proof {
                assert(pv.labels[i as int] == p.labels@[i as int].0);
            }
            return false;
        }
        proof {
            assert(pv.labels[i as int] == p.labels@[i as int].0);
        }
        i = i + 1;
    }
    let r = p.props.all_present_in(&t.fields);
    proof {
        assert(forall|j: int| 0 <= j < pv.labels.len() ==> t@.labels.contains(#[trigger] pv.labels[j]));
        if r {
            assert(pattern_matches(t@, pv));
        } else {
            let k = choose|k: u32| !(#[trigger] p.props@.contains_key(k) ==> t.fields@.contains_key(k) && t.fields@[k] == p.props@[k]);
            assert(pv.props.contains_key(k));
        }
    }
    r
}

} // verus!
