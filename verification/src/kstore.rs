//! The kernel's capability graph store: versioned Things, edges (ownership
//! and capabilities among them), watches, and the rules of who may read,
//! write, link and grant.

use vstd::prelude::*;
use crate::abi::{KERNEL_BUNDLE_ID, SymbolMap, Value, ValueView, value_view};
use crate::alist::{alist_find, alist_get, alist_put, alist_unique, lemma_alist_at, lemma_alist_put_unique};
use crate::canon::{
    Symbol, ADDR, BUFFER, BUFFER_KIND, BUFFER_USAGE, BUNDLE, BYTES, CAN_DMA, CAN_HANDLE_IRQ, CAN_LINK, CAN_MMIO,
    CAN_PORT_IO, CAN_READ, CAN_WRITE, CAPACITY, DST, HAS_DATA, HEAD, ID, INIT, KIND, NAME, OWNER, OWNS, PREDICATE,
    QUEUE_STATE, SHARED_BUFFER, SRC, STATUS, TAIL, THING_CREATED, TYPE, VERSION, WRITE,
};
use crate::ids::{NAMESPACE_OID, spec_uuid_v5, uuid_v5};
use crate::telemetry::BundleType;
use vstd::string::StringSliceAdditionalSpecFns;
use crate::records::{GraphPropsGetRequest, GraphPropsRequest, GraphThing, NodePattern, PatternView, ThingView, things_view};
use crate::symset::SymbolSet;

verus! {

broadcast use vstd::seq_lib::group_filter_ensures;

/// Changes a watch keeps at most; older ones are dropped.
pub const MAX_WATCH_QUEUE: usize = 1024;

/// What a kernel edge denotes.
pub struct KEdgeView {
    pub id: u128,
    pub src: u128,
    pub pred: u32,
    pub dst: u128,
    pub props: Map<u32, ValueView>,
    pub owner: u128,
    pub revision: u64,
}

/// An edge of the kernel graph, named by a predicate symbol.
#[derive(Debug)]
pub struct GraphEdge {
    pub id: u128,
    pub src: u128,
    pub pred: Symbol,
    pub dst: u128,
    pub props: SymbolMap,
    pub owner: u128,
    pub revision: u64,
}

impl View for GraphEdge {
    type V = KEdgeView;

    open spec fn view(&self) -> KEdgeView {
        KEdgeView {
            id: self.id,
            src: self.src,
            pred: self.pred.0,
            dst: self.dst,
            props: self.props@,
            owner: self.owner,
            revision: self.revision,
        }
    }
}

impl GraphEdge {
    /// A copy of the edge.
    pub fn copy(&self) -> (e: GraphEdge)
        ensures
            e@ == self@,
    {
        GraphEdge {
            id: self.id,
            src: self.src,
            pred: self.pred,
            dst: self.dst,
            props: self.props.copy(),
            owner: self.owner,
            revision: self.revision,
        }
    }
}

/// What a kernel change denotes.
pub enum KChangeView {
    Thing(ThingView),
    Edge(KEdgeView),
}

impl KChangeView {
    /// The revision a change carries.
    pub open spec fn revision(self) -> u64 {
        match self {
            KChangeView::Thing(t) => t.revision,
            KChangeView::Edge(e) => e.revision,
        }
    }
}

/// A change to the kernel graph.
#[derive(Debug)]
pub enum GraphChange {
    Thing(GraphThing),
    Edge(GraphEdge),
}

impl View for GraphChange {
    type V = KChangeView;

    open spec fn view(&self) -> KChangeView {
        match self {
            GraphChange::Thing(t) => KChangeView::Thing(t@),
            GraphChange::Edge(e) => KChangeView::Edge(e@),
        }
    }
}

impl GraphChange {
    /// The revision the change carries.
    pub fn revision(&self) -> (r: u64)
        ensures
            r == self@.revision(),
    {
        match self {
            GraphChange::Thing(t) => t.revision,
            GraphChange::Edge(e) => e.revision,
        }
    }

    /// A copy of the change.
    pub fn copy(&self) -> (c: GraphChange)
        ensures
            c@ == self@,
    {
        match self {
            GraphChange::Thing(t) => GraphChange::Thing(t.copy()),
            GraphChange::Edge(e) => GraphChange::Edge(e.copy()),
        }
    }
}

/// The views of a sequence of kernel edges.
pub open spec fn kedges_view(s: Seq<GraphEdge>) -> Seq<KEdgeView> {
    s.map_values(|e: GraphEdge| e@)
}

/// The views of a sequence of kernel changes.
pub open spec fn kchanges_view(s: Seq<GraphChange>) -> Seq<KChangeView> {
    s.map_values(|c: GraphChange| c@)
}

/// What a watch holds.
pub struct KWatchView {
    pub id: u64,
    pub owner: u128,
    pub pattern: PatternView,
    pub queue: Seq<KChangeView>,
}

/// What the store holds: the next revision, the versions of each Thing (by
/// increasing id), the edges in the order added, and the watches.
pub struct KStoreView {
    pub next_revision: u64,
    pub things: Seq<(u128, Seq<ThingView>)>,
    pub edges: Seq<KEdgeView>,
    pub watches: Seq<(u64, KWatchView)>,
    pub next_watch_id: u64,
}

/// The versions kept for a Thing id.
pub open spec fn versions_of(things: Seq<(u128, Seq<ThingView>)>, id: u128) -> Option<Seq<ThingView>>
    decreases things.len(),
{
    if things.len() == 0 {
        None
    } else if things[0].0 == id {
        Some(things[0].1)
    } else {
        versions_of(things.drop_first(), id)
    }
}

/// The latest version of a Thing.
pub open spec fn spec_latest(s: KStoreView, id: u128) -> Option<ThingView> {
    match versions_of(s.things, id) {
        Some(v) => if v.len() > 0 {
            Some(v.last())
        } else {
            None
        },
        None => None,
    }
}

/// Whether some edge goes from `src` by `pred` to `dst`.
pub open spec fn spec_has_edge(edges: Seq<KEdgeView>, src: u128, pred: u32, dst: u128) -> bool {
    exists|i: int| 0 <= i < edges.len() && edges[i].src == src && edges[i].pred == pred && edges[i].dst == dst
}

/// Whether a bundle owns a node.
pub open spec fn spec_owns(s: KStoreView, bundle: u128, node: u128) -> bool {
    spec_has_edge(s.edges, bundle, OWNS, node)
}

/// Whether a bundle holds a capability on a node.
pub open spec fn spec_has_capability(s: KStoreView, bundle: u128, target: u128, capability: u32) -> bool {
    spec_has_edge(s.edges, bundle, capability, target)
}

/// Whether a bundle may write a node: the kernel, its owner, or a holder of `CAN_WRITE`.
pub open spec fn spec_can_write(s: KStoreView, bundle: u128, node: u128) -> bool {
    bundle == KERNEL_BUNDLE_ID || spec_owns(s, bundle, node) || spec_has_capability(s, bundle, node, CAN_WRITE)
}

/// Whether a bundle may read a node: the kernel, its owner, a holder of
/// `CAN_READ`, or one who may write it.
pub open spec fn spec_can_read(s: KStoreView, bundle: u128, node: u128) -> bool {
    bundle == KERNEL_BUNDLE_ID || spec_owns(s, bundle, node) || spec_has_capability(s, bundle, node, CAN_READ)
        || spec_can_write(s, bundle, node)
}

/// Whether a `CAN_LINK` edge lets a bundle link `from` and `to` by `kind`: it
/// points at either end and names that kind, or names no kind.
pub open spec fn link_grant_allows(e: KEdgeView, bundle: u128, from: u128, to: u128, kind: u32) -> bool {
    &&& e.src == bundle
    &&& e.pred == CAN_LINK
    &&& (e.dst == from || e.dst == to)
    &&& match (if e.props.contains_key(KIND) {
        Some(e.props[KIND])
    } else {
        None
    }) {
        Some(ValueView::Symbol(k)) => k == kind,
        _ => true,
    }
}

/// Whether a bundle may link two nodes by a predicate: the kernel, the owner
/// of either end, or a holder of a fitting `CAN_LINK` grant.
pub open spec fn spec_can_link(s: KStoreView, bundle: u128, from: u128, to: u128, kind: u32) -> bool {
    bundle == KERNEL_BUNDLE_ID || spec_owns(s, bundle, from) || spec_owns(s, bundle, to) || exists|i: int|
        0 <= i < s.edges.len() && link_grant_allows(s.edges[i], bundle, from, to, kind)
}

/// Whether a bundle may see a change: a Thing it may read, or an edge with an
/// end it may read or that it owns.
pub open spec fn spec_change_visible(s: KStoreView, bundle: u128, c: KChangeView) -> bool {
    match c {
        KChangeView::Thing(t) => spec_can_read(s, bundle, t.id),
        KChangeView::Edge(e) => spec_can_read(s, bundle, e.src) || spec_can_read(s, bundle, e.dst) || e.owner == bundle,
    }
}

/// The capabilities over data: read, write, link.
pub open spec fn spec_is_data_capability(c: u32) -> bool {
    c == CAN_READ || c == CAN_WRITE || c == CAN_LINK
}

/// The capabilities over hardware: interrupts, DMA, memory-mapped and port I/O.
pub open spec fn spec_is_hardware_capability(c: u32) -> bool {
    c == CAN_HANDLE_IRQ || c == CAN_DMA || c == CAN_MMIO || c == CAN_PORT_IO
}

/// Ids strictly increase along the Things, each with at least one version,
/// every version carrying the id it is filed under.
pub open spec fn things_wf(things: Seq<(u128, Seq<ThingView>)>) -> bool {
    &&& forall|i: int, j: int| 0 <= i < j < things.len() ==> things[i].0 < things[j].0
    &&& forall|i: int| 0 <= i < things.len() ==> #[trigger] things[i].1.len() > 0
    &&& forall|i: int, j: int| 0 <= i < things.len() && 0 <= j < things[i].1.len() ==> #[trigger] things[i].1[j].id
        == things[i].0
}

/// The versions after adding one: a new id gets its first version in id
/// order; a known id gets it only when newer than its latest.
pub open spec fn spec_insert_thing(things: Seq<(u128, Seq<ThingView>)>, t: ThingView) -> Seq<(u128, Seq<ThingView>)>
    decreases things.len(),
{
    if things.len() == 0 {
        seq![(t.id, seq![t])]
    } else if t.id < things[0].0 {
        seq![(t.id, seq![t])] + things
    } else if t.id == things[0].0 {
        if things[0].1.len() == 0 || t.revision > things[0].1.last().revision {
            seq![(t.id, things[0].1.push(t))] + things.drop_first()
        } else {
            things
        }
    } else {
        seq![things[0]] + spec_insert_thing(things.drop_first(), t)
    }
}

/// The edges after adding one: kept only when newer than the last edge.
pub open spec fn spec_insert_edge(edges: Seq<KEdgeView>, e: KEdgeView) -> Seq<KEdgeView> {
    if edges.len() == 0 || e.revision > edges.last().revision {
        edges.push(e)
    } else {
        edges
    }
}

/// Inserting into sorted versions is an update at the first position whose
/// id is not smaller, or an insertion there; it keeps them sorted.
#[verifier::spinoff_prover]
#[verifier::rlimit(50)]
proof fn lemma_insert_thing(things: Seq<(u128, Seq<ThingView>)>, t: ThingView, i: int)
    requires
        things_wf(things),
        0 <= i <= things.len(),
        forall|j: int| 0 <= j < i ==> things[j].0 < t.id,
        i < things.len() ==> things[i].0 >= t.id,
    ensures
        i < things.len() && things[i].0 == t.id ==> spec_insert_thing(things, t) == (if t.revision > things[i].1.last().revision {
            things.update(i, (t.id, things[i].1.push(t)))
        } else {
            things
        }),
        !(i < things.len() && things[i].0 == t.id) ==> spec_insert_thing(things, t) == things.insert(i, (t.id, seq![t])),
        things_wf(spec_insert_thing(things, t)),
    decreases things.len(),
{
    if things.len() == 0 {
        assert(things.insert(i, (t.id, seq![t])) =~= seq![(t.id, seq![t])]);
    } else if i == 0 {
        if t.id == things[0].0 {
            if t.revision > things[0].1.last().revision {
                assert(seq![(t.id, things[0].1.push(t))] + things.drop_first() =~= things.update(0, (t.id, things[0].1.push(t))));
            }
        } else {
            assert(seq![(t.id, seq![t])] + things =~= things.insert(0, (t.id, seq![t])));
        }
        let r = spec_insert_thing(things, t);
        assert forall|a: int, b: int| 0 <= a < b < r.len() implies r[a].0 < r[b].0 by {
            if !(t.id == things[0].0) && a == 0 {
                assert(r[b] == things[b - 1]);
            }
        }
    } else {
        let rest = things.drop_first();
        assert(things_wf(rest)) by {
            assert forall|a: int, b: int| 0 <= a < b < rest.len() implies rest[a].0 < rest[b].0 by {
                assert(rest[a] == things[a + 1] && rest[b] == things[b + 1]);
            }
            assert forall|a: int| 0 <= a < rest.len() implies #[trigger] rest[a].1.len() > 0 by {
                assert(rest[a] == things[a + 1]);
            }
        }
        lemma_insert_thing(rest, t, i - 1);
        let ri = spec_insert_thing(rest, t);
        if i < things.len() && things[i].0 == t.id {
            if t.revision > things[i].1.last().revision {
                assert(seq![things[0]] + rest.update(i - 1, (t.id, things[i].1.push(t))) =~= things.update(i, (t.id, things[i].1.push(t))));
            } else {
                assert(seq![things[0]] + rest =~= things);
            }
        } else {
            assert(seq![things[0]] + rest.insert(i - 1, (t.id, seq![t])) =~= things.insert(i, (t.id, seq![t])));
        }
        let r = spec_insert_thing(things, t);
        assert forall|a: int, b: int| 0 <= a < b < r.len() implies r[a].0 < r[b].0 by {
            if a == 0 {
                assert(r[b] == ri[b - 1]);
                if i < things.len() && things[i].0 == t.id {
                    if b - 1 == i - 1 {
                    } else {
                        assert(ri[b - 1].0 == things[b].0 || ri[b - 1].0 == t.id);
                    }
                } else {
                    if b - 1 < i - 1 {
                        assert(ri[b - 1] == rest[b - 1]);
                    } else if b - 1 > i - 1 {
                        assert(ri[b - 1] == rest[b - 2]);
                    }
                }
            }
        }
        assert forall|a: int| 0 <= a < r.len() implies #[trigger] r[a].1.len() > 0 by {
            if a > 0 {
                assert(r[a] == ri[a - 1]);
                if i < things.len() && things[i].0 == t.id {
                } else if a - 1 < i - 1 {
                    assert(ri[a - 1] == rest[a - 1]);
                } else if a - 1 > i - 1 {
                    assert(ri[a - 1] == rest[a - 2]);
                }
            }
        }
    }
}

/// In sorted versions, what is found for an id is the entry at its index.
proof fn lemma_versions_at(things: Seq<(u128, Seq<ThingView>)>, id: u128, i: int)
    requires
        0 <= i <= things.len(),
        forall|j: int| 0 <= j < i ==> things[j].0 != id,
        i < things.len() ==> things[i].0 == id,
    ensures
        i < things.len() ==> versions_of(things, id) == Some(things[i].1),
        i == things.len() ==> versions_of(things, id) is None,
    decreases things.len(),
{
    if things.len() > 0 && i > 0 {
        lemma_versions_at(things.drop_first(), id, i - 1);
    }
}

/// The position at which a Thing with this id goes among sorted Things.
pub open spec fn insert_pos(things: Seq<(u128, Seq<ThingView>)>, id: u128) -> int
    decreases things.len(),
{
    if things.len() == 0 || things[0].0 >= id {
        0
    } else {
        1 + insert_pos(things.drop_first(), id)
    }
}

/// Adding a version keeps the Things well formed.
pub proof fn lemma_insert_thing_wf(things: Seq<(u128, Seq<ThingView>)>, t: ThingView)
    requires
        things_wf(things),
    ensures
        things_wf(spec_insert_thing(things, t)),
{
    lemma_insert_pos(things, t.id);
    lemma_insert_thing(things, t, insert_pos(things, t.id));
}

proof fn lemma_insert_pos(things: Seq<(u128, Seq<ThingView>)>, id: u128)
    requires
        things_wf(things),
    ensures
        0 <= insert_pos(things, id) <= things.len(),
        forall|j: int| 0 <= j < insert_pos(things, id) ==> things[j].0 < id,
        insert_pos(things, id) < things.len() ==> things[insert_pos(things, id)].0 >= id,
    decreases things.len(),
{
    if things.len() > 0 && things[0].0 < id {
        let rest = things.drop_first();
        assert(things_wf(rest)) by {
            assert forall|a: int, b: int| 0 <= a < b < rest.len() implies rest[a].0 < rest[b].0 by {
                assert(rest[a] == things[a + 1] && rest[b] == things[b + 1]);
            }
            assert forall|a: int| 0 <= a < rest.len() implies #[trigger] rest[a].1.len() > 0 by {
                assert(rest[a] == things[a + 1]);
            }
            assert forall|a: int, j: int| 0 <= a < rest.len() && 0 <= j < rest[a].1.len() implies #[trigger] rest[a].1[j].id
                == rest[a].0 by {
                assert(rest[a] == things[a + 1]);
            }
        }
        lemma_insert_pos(rest, id);
        assert forall|j: int| 0 <= j < insert_pos(things, id) implies things[j].0 < id by {
            if j > 0 {
                assert(things[j] == rest[j - 1]);
            }
        }
    }
}

struct Watch {
    id: u64,
    owner: u128,
    pattern: NodePattern,
    queue: Vec<GraphChange>,
}

impl View for Watch {
    type V = KWatchView;

    closed spec fn view(&self) -> KWatchView {
        KWatchView { id: self.id, owner: self.owner, pattern: self.pattern@, queue: kchanges_view(self.queue@) }
    }
}

/// The kernel graph store.
pub struct Store {
    next_revision: u64,
    things: Vec<(u128, Vec<GraphThing>)>,
    edges: Vec<GraphEdge>,
    watches: Vec<(u64, Watch)>,
    next_watch_id: u64,
}

spec fn things_seq_view(s: Seq<(u128, Vec<GraphThing>)>) -> Seq<(u128, Seq<ThingView>)> {
    s.map_values(|p: (u128, Vec<GraphThing>)| (p.0, things_view(p.1@)))
}

spec fn watches_seq_view(s: Seq<(u64, Watch)>) -> Seq<(u64, KWatchView)> {
    s.map_values(|p: (u64, Watch)| (p.0, p.1@))
}

impl View for Store {
    type V = KStoreView;

    closed spec fn view(&self) -> KStoreView {
        KStoreView {
            next_revision: self.next_revision,
            things: things_seq_view(self.things@),
            edges: kedges_view(self.edges@),
            watches: watches_seq_view(self.watches@),
            next_watch_id: self.next_watch_id,
        }
    }
}

/// `n + 1`, wrapping at the top of `u64`.
pub open spec fn wrap_inc(n: u64) -> u64 {
    crate::host_store::wrap_inc(n)
}

impl Store {
    /// Versions ordered by id, each watch filed under its own id, once.
    pub closed spec fn wf(&self) -> bool {
        &&& things_wf(self@.things)
        &&& alist_unique(self@.watches)
        &&& forall|i: int| 0 <= i < self@.watches.len() ==> #[trigger] self@.watches[i].1.id == self@.watches[i].0
    }

    /// A well-formed store's Things are well formed.
    pub proof fn lemma_wf(&self)
        requires
            self.wf(),
        ensures
            things_wf(self@.things),
    {
    }

    /// An empty store: revisions and watch ids start at 1.
    pub fn new() -> (s: Store)
        ensures
            s.wf(),
            s@ == (KStoreView {
                next_revision: 1,
                things: Seq::empty(),
                edges: Seq::empty(),
                watches: Seq::empty(),
                next_watch_id: 1,
            }),
    {
        let s = Store { next_revision: 1, things: Vec::new(), edges: Vec::new(), watches: Vec::new(), next_watch_id: 1 };
        assert(s@.things =~= Seq::<(u128, Seq<ThingView>)>::empty());
        assert(s@.edges =~= Seq::<KEdgeView>::empty());
        assert(s@.watches =~= Seq::<(u64, KWatchView)>::empty());
        s
    }

    /// Take the next revision, which then advances (wrapping).
    fn next_revision(&mut self) -> (r: u64)
        ensures
            r == old(self)@.next_revision,
            final(self)@ == (KStoreView { next_revision: wrap_inc(old(self)@.next_revision), ..old(self)@ }),
    {
        let r = self.next_revision;
        self.next_revision = self.next_revision.wrapping_add(1);
        r
    }

    fn find_thing(&self, id: u128) -> (r: Option<usize>)
        requires
            self.wf(),
        ensures
            r matches Some(i) ==> i < self.things@.len() && self.things@[i as int].0 == id && versions_of(self@.things, id)
                == Some(self@.things[i as int].1),
            r is None ==> versions_of(self@.things, id) is None,
    {
        let ghost tv = self@.things;
        let mut i: usize = 0;
        while i < self.things.len()
            invariant
                i <= self.things@.len(),
                tv == things_seq_view(self.things@),
                forall|j: int| 0 <= j < i ==> tv[j].0 != id,
            decreases self.things@.len() - i,
        {
            if self.things[i].0 == id {
                proof {
                    lemma_versions_at(tv, id, i as int);
                }
                return Some(i);
            }
            i = i + 1;
        }
        proof {
            lemma_versions_at(tv, id, i as int);
        }
        None
    }

    /// The latest version of a Thing.
    pub fn latest(&self, id: u128) -> (r: Option<GraphThing>)
        requires
            self.wf(),
        ensures
            match r {
                Some(t) => spec_latest(self@, id) == Some(t@),
                None => spec_latest(self@, id) is None,
            },
    {
        match self.find_thing(id) {
            Some(i) => {
                let n = self.things[i].1.len();
                if n > 0 {
                    proof {
                        assert(self@.things[i as int].1.last() == self.things@[i as int].1@[n - 1]@);
                    }
                    Some(self.things[i].1[n - 1].copy())
                } else {
                    None
                }
            },
            None => None,
        }
    }

    fn has_edge(&self, src: u128, pred: u32, dst: u128) -> (r: bool)
        ensures
            r == spec_has_edge(self@.edges, src, pred, dst),
    {
        let ghost ev = self@.edges;
        let mut i: usize = 0;
        while i < self.edges.len()
            invariant
                i <= self.edges@.len(),
                ev == kedges_view(self.edges@),
                forall|j: int| 0 <= j < i ==> !(ev[j].src == src && ev[j].pred == pred && ev[j].dst == dst),
            decreases self.edges@.len() - i,
        {
            if self.edges[i].src == src && self.edges[i].pred.0 == pred && self.edges[i].dst == dst {
                proof {
                    assert(ev[i as int].src == src && ev[i as int].pred == pred && ev[i as int].dst == dst);
                }
                return true;
            }
            i = i + 1;
        }
        false
    }

    /// Whether a bundle owns a node.
    pub fn owns(&self, bundle: u128, node: u128) -> (r: bool)
        ensures
            r == spec_owns(self@, bundle, node),
    {
        self.has_edge(bundle, OWNS, node)
    }

    /// Whether a bundle holds a capability on a node.
    pub fn bundle_has_capability(&self, bundle: u128, target: u128, capability: Symbol) -> (r: bool)
        ensures
            r == spec_has_capability(self@, bundle, target, capability.0),
    {
        self.has_capability(bundle, target, capability.0)
    }

    fn has_capability(&self, bundle: u128, target: u128, capability: u32) -> (r: bool)
        ensures
            r == spec_has_capability(self@, bundle, target, capability),
    {
        self.has_edge(bundle, capability, target)
    }

    /// Whether a bundle may write a node.
    pub fn can_write(&self, bundle: u128, node: u128) -> (r: bool)
        ensures
            r == spec_can_write(self@, bundle, node),
    {
        bundle == KERNEL_BUNDLE_ID || self.owns(bundle, node) || self.has_capability(bundle, node, CAN_WRITE)
    }

    /// Whether a bundle may read a node.
    pub fn can_read(&self, bundle: u128, node: u128) -> (r: bool)
        ensures
            r == spec_can_read(self@, bundle, node),
    {
        bundle == KERNEL_BUNDLE_ID || self.owns(bundle, node) || self.has_capability(bundle, node, CAN_READ)
            || self.can_write(bundle, node)
    }

    /// Whether a bundle may link two nodes by a predicate.
    pub fn can_link(&self, bundle: u128, from: u128, to: u128, kind: Symbol) -> (r: bool)
        ensures
            r == spec_can_link(self@, bundle, from, to, kind.0),
    {
        if bundle == KERNEL_BUNDLE_ID || self.owns(bundle, from) || self.owns(bundle, to) {
            return true;
        }
        let ghost ev = self@.edges;
        let mut i: usize = 0;
        while i < self.edges.len()
            invariant
                i <= self.edges@.len(),
                ev == kedges_view(self.edges@),
                forall|j: int| 0 <= j < i ==> !link_grant_allows(#[trigger] ev[j], bundle, from, to, kind.0),
            decreases self.edges@.len() - i,
        {
            let e = &self.edges[i];
            if e.src == bundle && e.pred.0 == CAN_LINK && (e.dst == from || e.dst == to) {
                match e.props.get(&Symbol(KIND)) {
                    Some(Value::Symbol(cap_kind)) => {
                        if cap_kind.0 == kind.0 {
                            proof {
                                assert(link_grant_allows(ev[i as int], bundle, from, to, kind.0));
                            }
                            return true;
                        }
                    },
                    _ => {
                        proof {
                            assert(link_grant_allows(ev[i as int], bundle, from, to, kind.0));
                        }
                        return true;
                    },
                }
            }
            i = i + 1;
        }
        false
    }

    /// Whether a bundle may see a change.
    pub fn change_visible_to(&self, bundle: u128, change: &GraphChange) -> (r: bool)
        ensures
            r == spec_change_visible(self@, bundle, change@),
    {
        match change {
            GraphChange::Thing(t) => self.can_read(bundle, t.id),
            GraphChange::Edge(e) => self.can_read(bundle, e.src) || self.can_read(bundle, e.dst) || e.owner == bundle,
        }
    }

    /// Add a version of a Thing (a new id, or one newer than its latest).
    fn insert_thing(&mut self, t: GraphThing)
        requires
            old(self).wf(),
        ensures
            final(self).wf(),
            final(self)@ == (KStoreView { things: spec_insert_thing(old(self)@.things, t@), ..old(self)@ }),
    {
        let ghost tv = self@.things;
        let mut i: usize = 0;
        while i < self.things.len() && self.things[i].0 < t.id
            invariant
                i <= self.things@.len(),
                tv == things_seq_view(self.things@),
                forall|j: int| 0 <= j < i ==> tv[j].0 < t.id,
            decreases self.things@.len() - i,
        {
            i = i + 1;
        }
        proof {
            lemma_insert_thing(tv, t@, i as int);
        }
        if i < self.things.len() && self.things[i].0 == t.id {
            let n = self.things[i].1.len();
            proof {
                assert(tv[i as int].1.len() > 0);
            }
            if t.revision > self.things[i].1[n - 1].revision {
                proof {
                    assert(tv[i as int].1.last() == self.things@[i as int].1@[n - 1]@);
                }
                let ghost before = self.things@;
                let ghost tval = t@;
                self.things[i].1.push(t);
                proof {
                    assert(things_view(self.things@[i as int].1@) =~= things_view(before[i as int].1@).push(tval));
                    assert(tv[i as int].1 == things_view(before[i as int].1@));
                    assert forall|j: int| 0 <= j < self.things@.len() && j != i implies self.things@[j] == before[j] by {}
                    assert(things_seq_view(self.things@) =~= tv.update(i as int, (tval.id, tv[i as int].1.push(tval))));
                }
            } else {
                proof {
                    assert(tv[i as int].1.last() == self.things@[i as int].1@[n - 1]@);
                }
            }
        } else {
            let mut v: Vec<GraphThing> = Vec::new();
            let id = t.id;
            v.push(t);
            let ghost vv = things_view(v@);
            proof {
                assert(vv =~= seq![t@]);
            }
            self.things.insert(i, (id, v));
            proof {
                assert(things_seq_view(self.things@) =~= tv.insert(i as int, (t@.id, seq![t@])));
            }
        }
    }

    /// Add an edge (only when newer than the last edge).
    fn insert_edge(&mut self, e: GraphEdge)
        ensures
            final(self)@ == (KStoreView { edges: spec_insert_edge(old(self)@.edges, e@), ..old(self)@ }),
            final(self).things == old(self).things,
            final(self).watches == old(self).watches,
    {
        let n = self.edges.len();
        if n == 0 || e.revision > self.edges[n - 1].revision {
            let ghost before = kedges_view(self.edges@);
            self.edges.push(e);
            proof {
                assert(kedges_view(self.edges@) =~= before.push(e@));
            }
        }
    }
}

/// Whether a capability is over data.
pub fn is_data_capability(c: Symbol) -> (r: bool)
    ensures
        r == spec_is_data_capability(c.0),
{
    c.0 == CAN_READ || c.0 == CAN_WRITE || c.0 == CAN_LINK
}

/// Whether a capability is over hardware.
pub fn is_hardware_capability(c: Symbol) -> (r: bool)
    ensures
        r == spec_is_hardware_capability(c.0),
{
    c.0 == CAN_HANDLE_IRQ || c.0 == CAN_DMA || c.0 == CAN_MMIO || c.0 == CAN_PORT_IO
}

/// Whether a pattern property is met by a Thing's field, or by the edge a
/// change is about (its source, destination or predicate).
pub open spec fn prop_met(t: ThingView, edge: Option<KEdgeView>, k: u32, v: ValueView) -> bool {
    (t.fields.contains_key(k) && t.fields[k] == v) || match edge {
        Some(e) => (k == SRC && v == ValueView::Uuid(e.src)) || (k == DST && v == ValueView::Uuid(e.dst)) || (k == PREDICATE
            && v == ValueView::Symbol(e.pred)),
        None => false,
    }
}

/// Whether a Thing (and the edge a change is about, if any) matches a pattern.
pub open spec fn spec_matches(p: PatternView, t: ThingView, edge: Option<KEdgeView>) -> bool {
    &&& forall|i: int| 0 <= i < p.labels.len() ==> t.labels.contains(#[trigger] p.labels[i])
    &&& forall|k: u32| #[trigger] p.props.contains_key(k) ==> prop_met(t, edge, k, p.props[k])
}

/// The Thing a change concerns: the Thing itself, or for an edge the latest
/// version of its source, else of its destination.
pub open spec fn spec_target(s: KStoreView, c: KChangeView) -> Option<ThingView> {
    match c {
        KChangeView::Thing(t) => Some(t),
        KChangeView::Edge(e) => match spec_latest(s, e.src) {
            Some(t) => Some(t),
            None => spec_latest(s, e.dst),
        },
    }
}

/// The edge a change is about, if it is one.
pub open spec fn change_edge(c: KChangeView) -> Option<KEdgeView> {
    match c {
        KChangeView::Thing(_) => None,
        KChangeView::Edge(e) => Some(e),
    }
}

/// A queue with a change added, its oldest dropped when over the bound.
pub open spec fn push_bounded(q: Seq<KChangeView>, c: KChangeView) -> Seq<KChangeView> {
    if q.len() + 1 > MAX_WATCH_QUEUE {
        q.push(c).drop_first()
    } else {
        q.push(c)
    }
}

/// A watch told of a change: queued when its owner may see the change and
/// its pattern matches the Thing the change concerns.
pub open spec fn notify_one(s: KStoreView, w: KWatchView, c: KChangeView) -> KWatchView {
    match spec_target(s, c) {
        Some(node) => if spec_change_visible(s, w.owner, c) && spec_matches(w.pattern, node, change_edge(c)) {
            KWatchView { queue: push_bounded(w.queue, c), ..w }
        } else {
            w
        },
        None => w,
    }
}

/// Every watch told of a change.
pub open spec fn spec_notify(s: KStoreView, c: KChangeView) -> Seq<(u64, KWatchView)> {
    s.watches.map_values(|p: (u64, KWatchView)| (p.0, notify_one(s, p.1, c)))
}

/// The batch a poll delivers: the whole queue, from the revision of its first
/// change to that of its last (0 when empty).
pub open spec fn spec_batch_bounds(q: Seq<KChangeView>) -> (u64, u64) {
    if q.len() == 0 {
        (0, 0)
    } else {
        (q[0].revision(), q.last().revision())
    }
}

/// A batch of kernel changes.
#[derive(Debug)]
pub struct GraphWatchBatch {
    pub from_revision: u64,
    pub latest_revision: u64,
    pub changes: Vec<GraphChange>,
}

/// What a watch registration asks for.
#[derive(Debug)]
pub struct WatchQuery {
    pub kind: Option<Symbol>,
    pub src: Option<u128>,
    pub dst: Option<u128>,
}

/// The pattern a watch query stands for.
pub open spec fn spec_query_pattern(q: WatchQuery) -> PatternView {
    let m0 = Map::<u32, ValueView>::empty();
    let m1 = match q.src {
        Some(s) => m0.insert(SRC, ValueView::Uuid(s)),
        None => m0,
    };
    PatternView {
        labels: match q.kind {
            Some(k) => seq![k.0],
            None => Seq::empty(),
        },
        props: match q.dst {
            Some(d) => m1.insert(DST, ValueView::Uuid(d)),
            None => m1,
        },
    }
}

/// The view of an optional borrowed edge.
pub open spec fn opt_edge_view(edge: Option<&GraphEdge>) -> Option<KEdgeView> {
    match edge {
        Some(e) => Some(e@),
        None => None,
    }
}

fn prop_met_exec(t: &GraphThing, edge: Option<&GraphEdge>, k: Symbol, v: &Value) -> (r: bool)
    ensures
        r == prop_met(t@, opt_edge_view(edge), k.0, value_view(*v)),
{
    let in_fields = match t.fields.get(&k) {
        Some(existing) => existing.same_as(v),
        None => false,
    };
    if in_fields {
        return true;
    }
    match edge {
        Some(e) => {
            let by_src = k.0 == SRC && v.same_as(&Value::Uuid(e.src));
            let by_dst = k.0 == DST && v.same_as(&Value::Uuid(e.dst));
            let by_pred = k.0 == PREDICATE && v.same_as(&Value::Symbol(e.pred));
            by_src || by_dst || by_pred
        },
        None => false,
    }
}

fn matches_exec(p: &NodePattern, t: &GraphThing, edge: Option<&GraphEdge>) -> (r: bool)
    ensures
        r == spec_matches(p@, t@, opt_edge_view(edge)),
{
    let ghost ev = opt_edge_view(edge);
    let ghost pv = p@;
    let mut i: usize = 0;
    while i < p.labels.len()
        invariant
            i <= p.labels@.len(),
            pv == p@,
            forall|j: int| 0 <= j < i ==> t@.labels.contains(#[trigger] pv.labels[j]),
        decreases p.labels@.len() - i,
    {
        proof {
            assert(pv.labels[i as int] == p.labels@[i as int].0);
        }
        if !t.labels.contains(&p.labels[i]) {
            return false;
        }
        i = i + 1;
    }
    let keys = p.props.keys();
    let mut j: usize = 0;
    while j < keys.len()
        invariant
            j <= keys@.len(),
            pv == p@,
            ev == opt_edge_view(edge),
            keys@.len() == p.props@.len(),
            forall|k: u32| #[trigger] p.props@.contains_key(k) <==> exists|x: int| 0 <= x < keys@.len() && keys@[x].0 == k,
            forall|x: int| 0 <= x < j ==> p.props@.contains_key(#[trigger] keys@[x].0) && prop_met(t@, ev, keys@[x].0, p.props@[keys@[x].0]),
        decreases keys@.len() - j,
    {
        let k = keys[j];
        proof {
            assert(p.props@.contains_key(k.0));
        }
        let v = p.props.get(&k).unwrap();
        if !prop_met_exec(t, edge, k, v) {
            proof {
                assert(pv.props.contains_key(k.0));
                assert(!prop_met(t@, ev, k.0, pv.props[k.0]));
            }
            return false;
        }
        j = j + 1;
    }
    proof {
        assert forall|k: u32| #[trigger] pv.props.contains_key(k) implies prop_met(t@, ev, k, pv.props[k]) by {
            let x = choose|x: int| 0 <= x < keys@.len() && keys@[x].0 == k;
        }
    }
    true
}

fn push_bounded_exec(q: &mut Vec<GraphChange>, c: GraphChange)
    ensures
        kchanges_view(final(q)@) == push_bounded(kchanges_view(old(q)@), c@),
{
    let ghost before = kchanges_view(q@);
    q.push(c);
    proof {
        assert(kchanges_view(q@) =~= before.push(c@));
    }
    if q.len() > MAX_WATCH_QUEUE {
        let ghost pushed = kchanges_view(q@);
        q.remove(0);
        proof {
            assert(kchanges_view(q@) =~= pushed.drop_first());
        }
    }
}

impl Store {
    fn target(&self, change: &GraphChange) -> (r: Option<GraphThing>)
        requires
            self.wf(),
        ensures
            match r {
                Some(t) => spec_target(self@, change@) == Some(t@),
                None => spec_target(self@, change@) is None,
            },
    {
        match change {
            GraphChange::Thing(t) => Some(t.copy()),
            GraphChange::Edge(e) => match self.latest(e.src) {
                Some(t) => Some(t),
                None => self.latest(e.dst),
            },
        }
    }

    /// Tell every watch of a change.
    fn notify_watches(&mut self, change: &GraphChange)
        requires
            old(self).wf(),
        ensures
            final(self).wf(),
            final(self)@ == (KStoreView { watches: spec_notify(old(self)@, change@), ..old(self)@ }),
    {
        let ghost s0 = self@;
        let target = self.target(change);
        let mut ws: Vec<(u64, Watch)> = Vec::new();
        std::mem::swap(&mut ws, &mut self.watches);
        let ghost start = watches_seq_view(ws@);
        let mut i: usize = 0;
        while i < ws.len()
            invariant
                i <= ws@.len(),
                ws@.len() == start.len(),
                start == s0.watches,
                self@ == (KStoreView { watches: self@.watches, ..s0 }),
                self.wf() || true,
                things_wf(self@.things),
                match target {
                    Some(t) => spec_target(s0, change@) == Some(t@),
                    None => spec_target(s0, change@) is None,
                },
                forall|j: int| 0 <= j < i ==> #[trigger] watches_seq_view(ws@)[j] == (start[j].0, notify_one(s0, start[j].1, change@)),
                forall|j: int| i <= j < start.len() ==> #[trigger] watches_seq_view(ws@)[j] == start[j],
            decreases ws@.len() - i,
        {
            proof {
                assert(watches_seq_view(ws@)[i as int] == start[i as int]);
            }
            let owner = ws[i].1.owner;
            let deliver = match &target {
                Some(node) => {
                    let vis = self.change_visible_to(owner, change);
                    let m = match change {
                        GraphChange::Thing(_) => matches_exec(&ws[i].1.pattern, node, None),
                        GraphChange::Edge(e) => matches_exec(&ws[i].1.pattern, node, Some(e)),
                    };
                    vis && m
                },
                None => false,
            };
            let ghost before = ws@;
            if deliver {
                let c = change.copy();
                let mut q: Vec<GraphChange> = Vec::new();
                std::mem::swap(&mut q, &mut ws[i].1.queue);
                push_bounded_exec(&mut q, c);
                ws[i].1.queue = q;
                proof {
                    assert forall|j: int| 0 <= j < ws@.len() && j != i implies #[trigger] watches_seq_view(ws@)[j]
                        == watches_seq_view(before)[j] by {
                        assert(ws@[j] == before[j]);
                    }
                    assert(watches_seq_view(ws@)[i as int] == (start[i as int].0, notify_one(s0, start[i as int].1, change@)));
                }
            } else {
                proof {
                    assert(watches_seq_view(ws@)[i as int] == (start[i as int].0, notify_one(s0, start[i as int].1, change@)));
                }
            }
            i = i + 1;
        }
        self.watches = ws;
        proof {
            assert(watches_seq_view(self.watches@) =~= spec_notify(s0, change@));
            assert forall|j: int| 0 <= j < self@.watches.len() implies #[trigger] self@.watches[j].1.id == self@.watches[j].0 by {
                assert(s0.watches[j].1.id == s0.watches[j].0);
            }
        }
    }

    /// Whether a watch id is left to hand out.
    pub fn watch_ids_left(&self) -> (r: bool)
        ensures
            r == (self@.next_watch_id < u64::MAX),
    {
        self.next_watch_id < u64::MAX
    }

    /// Register a watch on a pattern for a bundle, under the next watch id.
    pub fn register_watch_pattern(&mut self, owner: u128, pattern: NodePattern) -> (id: u64)
        requires
            old(self).wf(),
            old(self)@.next_watch_id < u64::MAX,
        ensures
            final(self).wf(),
            id == old(self)@.next_watch_id,
            final(self)@ == (KStoreView {
                watches: alist_put(old(self)@.watches, id, KWatchView { id, owner, pattern: pattern@, queue: Seq::empty() }),
                next_watch_id: (id + 1) as u64,
                ..old(self)@
            }),
    {
        let id = self.next_watch_id;
        self.next_watch_id = self.next_watch_id + 1;
        let w = Watch { id, owner, pattern, queue: Vec::new() };
        let ghost s = self@.watches;
        proof {
            assert(kchanges_view(w.queue@) =~= Seq::<KChangeView>::empty());
        }
        let ghost wv = w@;
        match alist_find(&self.watches, id) {
            Some(i) => {
                proof {
                    lemma_alist_at(s, id, wv, i as int);
                }
                self.watches.set(i, (id, w));
                proof {
                    assert(watches_seq_view(self.watches@) =~= s.update(i as int, (id, wv)));
                }
            },
            None => {
                proof {
                    lemma_alist_at(s, id, wv, s.len() as int);
                }
                self.watches.push((id, w));
                proof {
                    assert(watches_seq_view(self.watches@) =~= s.push((id, wv)));
                }
            },
        }
        proof {
            lemma_alist_put_unique(s, id, wv);
            assert forall|j: int| 0 <= j < self@.watches.len() implies #[trigger] self@.watches[j].1.id == self@.watches[j].0 by {
                if self@.watches[j].0 != id {
                    assert(self@.watches[j] == s[j]);
                }
            }
        }
        id
    }

    /// Register a watch on a query (a kind, a source, a destination).
    pub fn register_watch(&mut self, owner: u128, query: WatchQuery) -> (id: u64)
        requires
            old(self).wf(),
            old(self)@.next_watch_id < u64::MAX,
        ensures
            final(self).wf(),
            id == old(self)@.next_watch_id,
            final(self)@ == (KStoreView {
                watches: alist_put(old(self)@.watches, id, KWatchView { id, owner, pattern: spec_query_pattern(query), queue: Seq::empty() }),
                next_watch_id: (id + 1) as u64,
                ..old(self)@
            }),
    {
        let mut pattern = NodePattern::new();
        match query.kind {
            Some(k) => pattern.labels.push(k),
            None => {},
        }
        match query.src {
            Some(src) => pattern.props.insert(Symbol(SRC), Value::Uuid(src)),
            None => {},
        }
        match query.dst {
            Some(dst) => pattern.props.insert(Symbol(DST), Value::Uuid(dst)),
            None => {},
        }
        proof {
            assert(pattern@.labels =~= spec_query_pattern(query).labels);
            assert(pattern@.props =~= spec_query_pattern(query).props);
        }
        self.register_watch_pattern(owner, pattern)
    }

    /// Take the queued changes of a watch; `None` when there is no such watch.
    pub fn poll_watch(&mut self, id: u64) -> (r: Option<GraphWatchBatch>)
        requires
            old(self).wf(),
        ensures
            final(self).wf(),
            match alist_get(old(self)@.watches, id) {
                Some(w) => r matches Some(b) && kchanges_view(b.changes@) == w.queue && (b.from_revision, b.latest_revision)
                    == spec_batch_bounds(w.queue) && final(self)@ == (KStoreView {
                    watches: alist_put(old(self)@.watches, id, KWatchView { queue: Seq::empty(), ..w }),
                    ..old(self)@
                }),
                None => r is None && final(self)@ == old(self)@,
            },
    {
        let ghost s = self@.watches;
        match alist_find(&self.watches, id) {
            None => {
                proof {
                    lemma_alist_at(s, id, arbitrary(), s.len() as int);
                }
                None
            },
            Some(i) => {
                let ghost w = s[i as int].1;
                let ghost wv = KWatchView { queue: Seq::empty(), ..w };
                proof {
                    lemma_alist_at(s, id, wv, i as int);
                    lemma_alist_put_unique(s, id, wv);
                }
                let mut events: Vec<GraphChange> = Vec::new();
                std::mem::swap(&mut events, &mut self.watches[i].1.queue);
                proof {
                    assert(kchanges_view(self.watches@[i as int].1.queue@) =~= Seq::<KChangeView>::empty());
                    assert(watches_seq_view(self.watches@) =~= s.update(i as int, (id, wv)));
                }
                let n = events.len();
                let from_revision = if n == 0 {
                    0
                } else {
                    events[0].revision()
                };
                let latest_revision = if n == 0 {
                    0
                } else {
                    events[n - 1].revision()
                };
                proof {
                    if n > 0 {
                        assert(kchanges_view(events@)[0] == events@[0]@);
                        assert(kchanges_view(events@).last() == events@[n - 1]@);
                    }
                    assert forall|j: int| 0 <= j < self@.watches.len() implies #[trigger] self@.watches[j].1.id == self@.watches[j].0 by {
                        if j != i {
                            assert(self@.watches[j] == s[j]);
                        }
                    }
                }
                Some(GraphWatchBatch { from_revision, latest_revision, changes: events })
            },
        }
    }
}


/// The big-endian bytes of a symbol code.
pub open spec fn be_bytes(k: u32) -> Seq<u8> {
    seq![(k >> 24u32) as u8, (k >> 16u32) as u8, (k >> 8u32) as u8, k as u8]
}

/// The name an identifier is derived from: the kind's code, big-endian,
/// then the encoded properties.
pub open spec fn derive_name(kind: u32, encoded: Seq<u8>) -> Seq<u8> {
    be_bytes(kind) + encoded
}

/// The identifier derived from a kind and the encoding of its properties.
pub fn derive_uuid(kind: Symbol, encoded_props: &[u8]) -> (r: u128)
    ensures
        r == spec_uuid_v5(NAMESPACE_OID, derive_name(kind.0, encoded_props@)),
{
    let k = kind.0;
    let mut name: Vec<u8> = Vec::new();
    name.push((k >> 24u32) as u8);
    name.push((k >> 16u32) as u8);
    name.push((k >> 8u32) as u8);
    name.push(k as u8);
    let mut i: usize = 0;
    while i < encoded_props.len()
        invariant
            i <= encoded_props@.len(),
            name@ == be_bytes(k) + encoded_props@.take(i as int),
        decreases encoded_props@.len() - i,
    {
        name.push(encoded_props[i]);
        proof {
            assert(encoded_props@.take(i + 1) =~= encoded_props@.take(i as int).push(encoded_props@[i as int]));
        }
        i = i + 1;
    }
    proof {
        assert(encoded_props@.take(i as int) =~= encoded_props@);
    }
    uuid_v5(NAMESPACE_OID, name.as_slice())
}

/// The properties of an ownership or capability edge: who made it and what it points at.
pub open spec fn spec_edge_props(owner: u128, dst: u128) -> Map<u32, ValueView> {
    Map::<u32, ValueView>::empty().insert(OWNER, ValueView::Uuid(owner)).insert(DST, ValueView::Uuid(dst))
}

/// The properties of an ownership or capability edge (what its identifier is
/// derived from).
pub fn edge_props(owner: u128, dst: u128) -> (m: SymbolMap)
    ensures
        m@ == spec_edge_props(owner, dst),
{
    let mut m = SymbolMap::new();
    m.insert(Symbol(OWNER), Value::Uuid(owner));
    m.insert(Symbol(DST), Value::Uuid(dst));
    m
}

/// The node standing for a bundle.
pub open spec fn bundle_thing(bundle: u128, revision: u64) -> ThingView {
    ThingView {
        id: bundle,
        kind: BUNDLE,
        labels: set![BUNDLE],
        fields: Map::<u32, ValueView>::empty().insert(ID, ValueView::Uuid(bundle)),
        owner: bundle,
        revision,
    }
}

/// The store with a node for a bundle, added (at the next revision) when absent.
pub open spec fn spec_ensure_bundle(s: KStoreView, bundle: u128) -> KStoreView {
    if versions_of(s.things, bundle) is Some {
        s
    } else {
        KStoreView {
            things: spec_insert_thing(s.things, bundle_thing(bundle, s.next_revision)),
            next_revision: wrap_inc(s.next_revision),
            ..s
        }
    }
}

/// The edge by which a bundle owns a node.
pub open spec fn ownership_edge(id: u128, owner: u128, node: u128, revision: u64) -> KEdgeView {
    KEdgeView { id, src: owner, pred: OWNS, dst: node, props: spec_edge_props(owner, node), owner, revision }
}

/// A request to create a Thing with labels and properties.
#[derive(Debug)]
pub struct GraphNodeRequest {
    pub id: Option<u128>,
    pub labels: Vec<Symbol>,
    pub props: SymbolMap,
}

/// A request to create a Thing of one kind.
#[derive(Debug)]
pub struct GraphFiatRequest {
    pub id: Option<u128>,
    pub kind: Symbol,
    pub fields: SymbolMap,
}

/// The labels a new node gets: those asked for, or `THING_CREATED` when none.
pub open spec fn node_labels(labels: Seq<Symbol>) -> Set<u32> {
    if labels.len() == 0 {
        set![THING_CREATED]
    } else {
        labels.map_values(|x: Symbol| x.0).to_set()
    }
}

/// The smallest member of a set of labels.
pub open spec fn min_label(labels: Set<u32>) -> u32 {
    choose|x: u32| labels.contains(x) && forall|y: u32| labels.contains(y) ==> x <= y
}

/// The properties a new node gets: those asked for, with `OWNER` set to its
/// creator unless given.
pub open spec fn node_props(owner: u128, props: Map<u32, ValueView>) -> Map<u32, ValueView> {
    if props.contains_key(OWNER) {
        props
    } else {
        props.insert(OWNER, ValueView::Uuid(owner))
    }
}

/// The Thing a node request creates at a revision; `derived` is its id when
/// the request names none.
pub open spec fn node_thing(owner: u128, id: Option<u128>, labels: Seq<Symbol>, props: Map<u32, ValueView>, derived: u128, revision: u64) -> ThingView {
    ThingView {
        id: match id {
            Some(i) => i,
            None => derived,
        },
        kind: min_label(node_labels(labels)),
        labels: node_labels(labels),
        fields: node_props(owner, props),
        owner,
        revision,
    }
}

/// A store after a node is created: the creator's bundle node ensured, the
/// Thing added at the next revision with an ownership edge of the same
/// revision, and the watches told. Also the Thing.
pub open spec fn spec_fiat_node(s: KStoreView, owner: u128, id: Option<u128>, labels: Seq<Symbol>, props: Map<u32, ValueView>, derived: u128, ownership_id: u128) -> (KStoreView, ThingView) {
    let s1 = spec_ensure_bundle(s, owner);
    let t = node_thing(owner, id, labels, props, derived, s1.next_revision);
    let s2 = KStoreView {
        next_revision: wrap_inc(s1.next_revision),
        things: spec_insert_thing(s1.things, t),
        edges: spec_insert_edge(s1.edges, ownership_edge(ownership_id, owner, t.id, s1.next_revision)),
        ..s1
    };
    (KStoreView { watches: spec_notify(s2, KChangeView::Thing(t)), ..s2 }, t)
}

/// The labels and properties a node request gives its Thing, and its kind:
/// what its identifier is derived from when the request names none.
pub fn node_plan(owner: u128, request: &GraphNodeRequest) -> (r: (Symbol, SymbolSet, SymbolMap))
    ensures
        r.0.0 == min_label(node_labels(request.labels@)),
        r.1@ == node_labels(request.labels@),
        r.2@ == node_props(owner, request.props@),
{
    let mut labels = SymbolSet::from_symbols(&request.labels);
    if request.labels.len() == 0 {
        labels.insert(Symbol(THING_CREATED));
        proof {
            assert(labels@ =~= set![THING_CREATED]);
        }
    }
    let kind = match labels.first() {
        Some(k) => k,
        None => Symbol(THING_CREATED),
    };
    proof {
        let ls = node_labels(request.labels@);
        if request.labels@.len() > 0 {
            let ms = request.labels@.map_values(|x: Symbol| x.0);
            assert(ms[0] == request.labels@[0].0);
            assert(ms.contains(ms[0]));
            assert(ls.contains(request.labels@[0].0));
        }
        assert(labels@.contains(kind.0) && forall|y: u32| labels@.contains(y) ==> kind.0 <= y);
        let m = min_label(ls);
        assert(ls.contains(m) && forall|y: u32| ls.contains(y) ==> m <= y);
        assert(m <= kind.0 && kind.0 <= m);
    }
    let mut props = request.props.copy();
    if !props.contains_key(&Symbol(OWNER)) {
        props.insert(Symbol(OWNER), Value::Uuid(owner));
    }
    (kind, labels, props)
}

impl Store {
    /// Add the node of a bundle if it has none.
    fn ensure_bundle_node(&mut self, bundle: u128)
        requires
            old(self).wf(),
        ensures
            final(self).wf(),
            final(self)@ == spec_ensure_bundle(old(self)@, bundle),
    {
        if self.find_thing(bundle).is_some() {
            return;
        }
        let mut labels = SymbolSet::new();
        labels.insert(Symbol(BUNDLE));
        let mut fields = SymbolMap::new();
        fields.insert(Symbol(ID), Value::Uuid(bundle));
        let revision = self.next_revision();
        let t = GraphThing { id: bundle, kind: Symbol(BUNDLE), labels, fields, owner: bundle, revision };
        proof {
            assert(t.labels@ =~= set![BUNDLE]);
            assert(t@ == bundle_thing(bundle, revision));
        }
        self.insert_thing(t);
    }

    /// Add the edge by which `owner` owns `node`.
    fn add_ownership_edge(&mut self, owner: u128, node: u128, revision: u64, id: u128)
        requires
            old(self).wf(),
        ensures
            final(self).wf(),
            final(self)@ == (KStoreView {
                edges: spec_insert_edge(old(self)@.edges, ownership_edge(id, owner, node, revision)),
                ..old(self)@
            }),
    {
        let e = GraphEdge { id, src: owner, pred: Symbol(OWNS), dst: node, props: edge_props(owner, node), owner, revision };
        self.insert_edge(e);
    }

    /// Create a node for `owner`. `derived` is its id when the request names
    /// none, and `ownership_id` the id of the edge by which `owner` owns it
    /// (see `node_plan`, `derive_uuid` and `edge_props`).
    pub fn fiat_node(&mut self, owner: u128, request: GraphNodeRequest, derived: u128, ownership_id: u128) -> (t: GraphThing)
        requires
            old(self).wf(),
        ensures
            final(self).wf(),
            (final(self)@, t@) == spec_fiat_node(old(self)@, owner, request.id, request.labels@, request.props@, derived, ownership_id),
    {
        self.ensure_bundle_node(owner);
        let (kind, labels, props) = node_plan(owner, &request);
        let id = match request.id {
            Some(i) => i,
            None => derived,
        };
        let revision = self.next_revision();
        let t = GraphThing { id, kind, labels, fields: props, owner, revision };
        let ghost tv = t@;
        proof {
            assert(tv == node_thing(owner, request.id, request.labels@, request.props@, derived, revision));
        }
        self.insert_thing(t.copy());
        self.add_ownership_edge(owner, id, revision, ownership_id);
        let c = GraphChange::Thing(t.copy());
        self.notify_watches(&c);
        t
    }

    /// Create a Thing of one kind for `owner` (a node labelled by that kind).
    pub fn fiat(&mut self, owner: u128, request: GraphFiatRequest, derived: u128, ownership_id: u128) -> (t: GraphThing)
        requires
            old(self).wf(),
        ensures
            final(self).wf(),
            (final(self)@, t@) == spec_fiat_node(old(self)@, owner, request.id, seq![request.kind], request.fields@, derived, ownership_id),
    {
        let mut labels: Vec<Symbol> = Vec::new();
        labels.push(request.kind);
        proof {
            assert(labels@ =~= seq![request.kind]);
        }
        self.fiat_node(owner, GraphNodeRequest { id: request.id, labels, props: request.fields }, derived, ownership_id)
    }
}


/// A request to link two nodes by a predicate.
#[derive(Debug)]
pub struct GraphLinkRequest {
    pub id: Option<u128>,
    pub kind: Symbol,
    pub from: u128,
    pub to: u128,
    pub props: SymbolMap,
}

/// A request to state a fact: `src` `pred` `dst`.
#[derive(Debug)]
pub struct GraphThatRequest {
    pub src: u128,
    pub pred: Symbol,
    pub dst: u128,
    pub revision_hint: u64,
    pub props: SymbolMap,
}

/// A request to grant a bundle a capability on a target node.
#[derive(Debug)]
pub struct GrantCapabilityRequest {
    pub grantee: u128,
    pub target: u128,
    pub capability: Symbol,
}

/// A store after a link: refused (unchanged, revision 0) unless the bundle may
/// link the two ends; else the edge added at the next revision and the
/// watches told. Also the revision returned.
pub open spec fn spec_link(s: KStoreView, owner: u128, id: Option<u128>, kind: u32, from: u128, to: u128, props: Map<u32, ValueView>, derived: u128) -> (KStoreView, u64) {
    if !spec_can_link(s, owner, from, to, kind) {
        (s, 0)
    } else {
        let rev = s.next_revision;
        let e = KEdgeView {
            id: match id {
                Some(i) => i,
                None => derived,
            },
            src: from,
            pred: kind,
            dst: to,
            props,
            owner,
            revision: rev,
        };
        let s2 = KStoreView { next_revision: wrap_inc(rev), edges: spec_insert_edge(s.edges, e), ..s };
        (KStoreView { watches: spec_notify(s2, KChangeView::Edge(e)), ..s2 }, rev)
    }
}

/// Whether a grantor may grant a capability on a target: hardware
/// capabilities only the kernel; data capabilities the kernel, the target's
/// owner, or a bundle that holds the capability itself (delegation); nothing
/// else is a capability.
pub open spec fn spec_may_grant(s: KStoreView, grantor: u128, target: u128, capability: u32) -> bool {
    if spec_is_hardware_capability(capability) {
        grantor == KERNEL_BUNDLE_ID
    } else if spec_is_data_capability(capability) {
        grantor == KERNEL_BUNDLE_ID || spec_owns(s, grantor, target) || spec_has_capability(s, grantor, target, capability)
    } else {
        false
    }
}

/// The edge by which a grantee holds a capability on a target.
pub open spec fn capability_edge(id: u128, grantor: u128, grantee: u128, target: u128, capability: u32, revision: u64) -> KEdgeView {
    KEdgeView { id, src: grantee, pred: capability, dst: target, props: spec_edge_props(grantor, target), owner: grantor, revision }
}

/// A store after a grant: refused (unchanged) unless the grantor may grant
/// it; else the grantee's bundle node ensured, the capability edge added at
/// the next revision and the watches told.
pub open spec fn spec_grant(s: KStoreView, grantor: u128, grantee: u128, target: u128, capability: u32, edge_id: u128) -> (KStoreView, bool) {
    if !spec_may_grant(s, grantor, target, capability) {
        (s, false)
    } else {
        let s1 = spec_ensure_bundle(s, grantee);
        let e = capability_edge(edge_id, grantor, grantee, target, capability, s1.next_revision);
        let s2 = KStoreView { next_revision: wrap_inc(s1.next_revision), edges: spec_insert_edge(s1.edges, e), ..s1 };
        (KStoreView { watches: spec_notify(s2, KChangeView::Edge(e)), ..s2 }, true)
    }
}

/// A store after properties are merged into a node: refused (unchanged) when
/// the node is unknown or the bundle may not write it; else a new version,
/// its fields overridden by the given ones, at the next revision, and the
/// watches told.
pub open spec fn spec_set_props(s: KStoreView, owner: u128, node: u128, props: Map<u32, ValueView>) -> (KStoreView, bool) {
    match spec_latest(s, node) {
        None => (s, false),
        Some(cur) => if !spec_can_write(s, owner, cur.id) {
            (s, false)
        } else {
            let t = ThingView { fields: cur.fields.union_prefer_right(props), revision: s.next_revision, ..cur };
            let s2 = KStoreView { next_revision: wrap_inc(s.next_revision), things: spec_insert_thing(s.things, t), ..s };
            (KStoreView { watches: spec_notify(s2, KChangeView::Thing(t)), ..s2 }, true)
        },
    }
}

/// What a property read gives: nothing when the node is unknown or the
/// bundle may not read it; else all its fields, or those among the keys asked for.
pub open spec fn spec_get_props(s: KStoreView, owner: u128, node: u128, keys: Seq<Symbol>) -> Option<Map<u32, ValueView>> {
    match spec_latest(s, node) {
        None => None,
        Some(t) => if !spec_can_read(s, owner, t.id) {
            None
        } else if keys.len() == 0 {
            Some(t.fields)
        } else {
            Some(t.fields.restrict(keys.map_values(|k: Symbol| k.0).to_set()))
        },
    }
}

impl Store {
    /// Link two nodes for `owner`; `derived` is the edge's id when the
    /// request names none. Returns the edge's revision, or 0 when refused.
    pub fn link_edge(&mut self, owner: u128, request: GraphLinkRequest, derived: u128) -> (r: u64)
        requires
            old(self).wf(),
        ensures
            final(self).wf(),
            (final(self)@, r) == spec_link(old(self)@, owner, request.id, request.kind.0, request.from, request.to, request.props@, derived),
    {
        if !self.can_link(owner, request.from, request.to, request.kind) {
            return 0;
        }
        let revision = self.next_revision();
        let id = match request.id {
            Some(i) => i,
            None => derived,
        };
        let e = GraphEdge { id, src: request.from, pred: request.kind, dst: request.to, props: request.props, owner, revision };
        let c = GraphChange::Edge(e.copy());
        self.insert_edge(e);
        self.notify_watches(&c);
        revision
    }

    /// State a fact for `owner`: a link with no id of its own.
    pub fn that(&mut self, owner: u128, request: GraphThatRequest, derived: u128) -> (r: u64)
        requires
            old(self).wf(),
        ensures
            final(self).wf(),
            (final(self)@, r) == spec_link(old(self)@, owner, None, request.pred.0, request.src, request.dst, request.props@, derived),
    {
        let link = GraphLinkRequest { id: None, kind: request.pred, from: request.src, to: request.dst, props: request.props };
        self.link_edge(owner, link, derived)
    }

    /// Grant a capability, the new edge named by the identifier derived from
    /// the capability and `encoded_props`, the encoding of the edge's
    /// properties (its grantor and target) that the wire gives.
    pub fn grant_capability_encoded(&mut self, grantor: u128, request: GrantCapabilityRequest, encoded_props: &[u8]) -> (r: bool)
        requires
            old(self).wf(),
        ensures
            final(self).wf(),
            (final(self)@, r) == spec_grant(
                old(self)@,
                grantor,
                request.grantee,
                request.target,
                request.capability.0,
                spec_uuid_v5(NAMESPACE_OID, derive_name(request.capability.0, encoded_props@)),
            ),
    {
        let edge_id = derive_uuid(request.capability, encoded_props);
        self.grant_capability(grantor, request, edge_id)
    }


    /// Grant a capability; `edge_id` is the id of the capability edge (derived
    /// from the capability and `edge_props(grantor, target)`).
    pub fn grant_capability(&mut self, grantor: u128, request: GrantCapabilityRequest, edge_id: u128) -> (r: bool)
        requires
            old(self).wf(),
        ensures
            final(self).wf(),
            (final(self)@, r) == spec_grant(old(self)@, grantor, request.grantee, request.target, request.capability.0, edge_id),
    {
        if !is_data_capability(request.capability) && !is_hardware_capability(request.capability) {
            return false;
        }
        let can_grant = if is_hardware_capability(request.capability) {
            grantor == KERNEL_BUNDLE_ID
        } else {
            grantor == KERNEL_BUNDLE_ID || self.owns(grantor, request.target) || self.has_capability(
                grantor,
                request.target,
                request.capability.0,
            )
        };
        if !can_grant {
            return false;
        }
        self.ensure_bundle_node(request.grantee);
        let revision = self.next_revision();
        let e = GraphEdge {
            id: edge_id,
            src: request.grantee,
            pred: request.capability,
            dst: request.target,
            props: edge_props(grantor, request.target),
            owner: grantor,
            revision,
        };
        let c = GraphChange::Edge(e.copy());
        self.insert_edge(e);
        self.notify_watches(&c);
        true
    }

    /// Merge properties into a node for `owner`; false when refused.
    pub fn set_props(&mut self, owner: u128, request: GraphPropsRequest) -> (r: bool)
        requires
            old(self).wf(),
        ensures
            final(self).wf(),
            (final(self)@, r) == spec_set_props(old(self)@, owner, request.node, request.props@),
    {
        let mut current = match self.latest(request.node) {
            Some(t) => t,
            None => return false,
        };
        if !self.can_write(owner, current.id) {
            return false;
        }
        current.fields.extend(&request.props);
        current.revision = self.next_revision();
        let c = GraphChange::Thing(current.copy());
        self.insert_thing(current);
        self.notify_watches(&c);
        true
    }

    /// Read properties of a node for `owner` (all when no keys are given).
    pub fn get_props(&self, owner: u128, request: GraphPropsGetRequest) -> (r: Option<SymbolMap>)
        requires
            self.wf(),
        ensures
            match r {
                Some(m) => spec_get_props(self@, owner, request.node, request.keys@) == Some(m@),
                None => spec_get_props(self@, owner, request.node, request.keys@) is None,
            },
    {
        let thing = match self.latest(request.node) {
            Some(t) => t,
            None => return None,
        };
        if !self.can_read(owner, thing.id) {
            return None;
        }
        if request.keys.len() == 0 {
            Some(thing.fields)
        } else {
            Some(thing.fields.select(&request.keys))
        }
    }
}


/// Things a find returns at most per call.
pub const FIND_LIMIT: u64 = 100;

/// The latest version of each Thing, in id order.
pub open spec fn latest_all(things: Seq<(u128, Seq<ThingView>)>) -> Seq<ThingView> {
    things.map_values(|p: (u128, Seq<ThingView>)| p.1.last())
}

/// Whether a bundle may read a Thing that matches a pattern.
pub open spec fn readable_match(s: KStoreView, owner: u128, p: PatternView) -> spec_fn(ThingView) -> bool {
    |t: ThingView| spec_can_read(s, owner, t.id) && spec_matches(p, t, None)
}

/// The latest versions a bundle may read that match a pattern, in id order.
pub open spec fn spec_get_nodes(s: KStoreView, owner: u128, p: PatternView) -> Seq<ThingView> {
    latest_all(s.things).filter(readable_match(s, owner, p))
}

/// Whether some version of a Thing has a kind.
pub open spec fn has_kind(kind: u32) -> spec_fn((u128, Seq<ThingView>)) -> bool {
    |p: (u128, Seq<ThingView>)| exists|j: int| 0 <= j < p.1.len() && #[trigger] p.1[j].kind == kind
}

/// The ids of Things some version of which has a kind, in id order.
pub open spec fn kind_ids(things: Seq<(u128, Seq<ThingView>)>, kind: u32) -> Seq<u128> {
    things.filter(has_kind(kind)).map_values(|p: (u128, Seq<ThingView>)| p.0)
}

/// The latest versions of the Things some version of which has a kind.
pub open spec fn spec_latest_of_kind(things: Seq<(u128, Seq<ThingView>)>, kind: u32) -> Seq<ThingView> {
    latest_all(things.filter(has_kind(kind)))
}

/// A find over ids from position `i`: the first `cursor` ids are skipped;
/// then each Thing the bundle may read is taken, up to `FIND_LIMIT`; when the
/// limit is reached with ids left, the next cursor is `cursor` plus the
/// number taken, else 0.
pub open spec fn kind_scan(s: KStoreView, owner: u128, ids: Seq<u128>, cursor: u64, i: nat, count: nat, acc: Seq<ThingView>) -> (Seq<ThingView>, u64)
    decreases ids.len() - i,
{
    if i >= ids.len() {
        (acc, 0)
    } else if i < cursor {
        kind_scan(s, owner, ids, cursor, i + 1, count, acc)
    } else if count >= FIND_LIMIT {
        (acc, crate::host_store::wrap_add(cursor, count as u64))
    } else {
        match spec_latest(s, ids[i as int]) {
            Some(t) => if spec_can_read(s, owner, t.id) {
                kind_scan(s, owner, ids, cursor, i + 1, count + 1, acc.push(t))
            } else {
                kind_scan(s, owner, ids, cursor, i + 1, count, acc)
            },
            None => kind_scan(s, owner, ids, cursor, i + 1, count, acc),
        }
    }
}

/// What a find by kind name gives: nothing (and cursor 0) for an unknown
/// name; else the scan of the ids of that kind.
pub open spec fn spec_find_by_kind(s: KStoreView, owner: u128, kind: Seq<char>, cursor: u64) -> (Seq<ThingView>, u64) {
    match crate::canon::spec_from_str(kind) {
        None => (Seq::empty(), 0),
        Some(k) => kind_scan(s, owner, kind_ids(s.things, k), cursor, 0, 0, Seq::empty()),
    }
}

/// The edges from a source by a predicate, in the order added.
pub open spec fn spec_edges_of(edges: Seq<KEdgeView>, src: u128, pred: u32) -> Seq<KEdgeView> {
    edges.filter(|e: KEdgeView| e.src == src && e.pred == pred)
}

/// The distinct kinds among versions.
pub open spec fn kinds_of(vs: Seq<ThingView>) -> Set<u32> {
    vs.map_values(|t: ThingView| t.kind).to_set()
}

/// How many (kind, Thing) pairs the kind index holds.
pub open spec fn kind_entries(things: Seq<(u128, Seq<ThingView>)>) -> nat
    decreases things.len(),
{
    if things.len() == 0 {
        0
    } else {
        kind_entries(things.drop_last()) + kinds_of(things.last().1).len()
    }
}

/// Every version of every Thing, in id order then revision order.
pub open spec fn all_versions(things: Seq<(u128, Seq<ThingView>)>) -> Seq<ThingView>
    decreases things.len(),
{
    if things.len() == 0 {
        Seq::empty()
    } else {
        all_versions(things.drop_last()) + things.last().1
    }
}

/// `n - 1`, stopping at 0.
pub open spec fn sat_dec(n: u64) -> u64 {
    if n == 0 {
        0
    } else {
        (n - 1) as u64
    }
}

/// A whole store, as saved and restored.
#[derive(Debug)]
pub struct GraphSnapshot {
    pub revision: u64,
    pub thing_count: usize,
    pub edge_count: usize,
    pub things: Vec<GraphThing>,
    pub edges: Vec<GraphEdge>,
}

/// Things added one after another to an empty store.
pub open spec fn insert_things(ts: Seq<ThingView>) -> Seq<(u128, Seq<ThingView>)>
    decreases ts.len(),
{
    if ts.len() == 0 {
        Seq::empty()
    } else {
        spec_insert_thing(insert_things(ts.drop_last()), ts.last())
    }
}

/// Edges added one after another to an empty store.
pub open spec fn insert_edges(es: Seq<KEdgeView>) -> Seq<KEdgeView>
    decreases es.len(),
{
    if es.len() == 0 {
        Seq::empty()
    } else {
        spec_insert_edge(insert_edges(es.drop_last()), es.last())
    }
}

/// A store restored from a snapshot: its Things and edges added in order,
/// watches dropped, the next revision one past the snapshot's (saturating).
pub open spec fn spec_apply_snapshot(s: KStoreView, revision: u64, things: Seq<ThingView>, edges: Seq<KEdgeView>) -> KStoreView {
    KStoreView {
        next_revision: if revision == u64::MAX {
            u64::MAX
        } else {
            (revision + 1) as u64
        },
        things: insert_things(things),
        edges: insert_edges(edges),
        watches: Seq::empty(),
        next_watch_id: s.next_watch_id,
    }
}

/// The things of a well-formed store each have a latest version.
proof fn lemma_latest_all(s: KStoreView, i: int)
    requires
        things_wf(s.things),
        0 <= i < s.things.len(),
    ensures
        spec_latest(s, s.things[i].0) == Some(latest_all(s.things)[i]),
{
    lemma_versions_at(s.things, s.things[i].0, i);
}

impl Store {
    /// The latest versions `owner` may read that match a pattern, in id order.
    pub fn get_nodes(&self, owner: u128, pattern: NodePattern) -> (r: Vec<GraphThing>)
        requires
            self.wf(),
        ensures
            things_view(r@) == spec_get_nodes(self@, owner, pattern@),
    {
        let ghost s = self@;
        let ghost la = latest_all(s.things);
        let ghost pred = readable_match(s, owner, pattern@);
        let mut out: Vec<GraphThing> = Vec::new();
        let mut i: usize = 0;
        while i < self.things.len()
            invariant
                i <= self.things@.len(),
                s == self@,
                self.wf(),
                la == latest_all(s.things),
                pred == readable_match(s, owner, pattern@),
                things_view(out@) == la.take(i as int).filter(pred),
            decreases self.things@.len() - i,
        {
            proof {
                assert(s.things[i as int].1.len() > 0);
                assert(la.take(i + 1) =~= la.take(i as int).push(la[i as int]));
                la.take(i as int).lemma_filter_push(la[i as int], pred);
            }
            let n = self.things[i].1.len();
            let t = &self.things[i].1[n - 1];
            proof {
                assert(t@ == la[i as int]);
            }
            if self.can_read(owner, t.id) && matches_exec(&pattern, t, None) {
                let ghost before = things_view(out@);
                out.push(t.copy());
                proof {
                    assert(things_view(out@) =~= before.push(la[i as int]));
                }
            }
            i = i + 1;
        }
        proof {
            assert(la.take(i as int) =~= la);
        }
        out
    }

    fn kind_ids_exec(&self, kind: Symbol) -> (ids: Vec<u128>)
        requires
            self.wf(),
        ensures
            ids@ == kind_ids(self@.things, kind.0),
    {
        let ghost tv = self@.things;
        let ghost pred = has_kind(kind.0);
        let mut ids: Vec<u128> = Vec::new();
        let mut i: usize = 0;
        while i < self.things.len()
            invariant
                i <= self.things@.len(),
                tv == self@.things,
                pred == has_kind(kind.0),
                ids@ == kind_ids(tv.take(i as int), kind.0),
            decreases self.things@.len() - i,
        {
            proof {
                assert(tv.take(i + 1) =~= tv.take(i as int).push(tv[i as int]));
                tv.take(i as int).lemma_filter_push(tv[i as int], pred);
            }
            let vs = &self.things[i].1;
            let mut j: usize = 0;
            let mut found = false;
            while j < vs.len() && !found
                invariant
                    j <= vs@.len(),
                    vs == &self.things@[i as int].1,
                    tv == self@.things,
                    i < tv.len(),
                    pred == has_kind(kind.0),
                    found ==> pred(tv[i as int]),
                    !found ==> forall|k: int| 0 <= k < j ==> tv[i as int].1[k].kind != kind.0,
                decreases vs@.len() - j,
            {
                proof {
                    assert(tv[i as int].1[j as int] == vs@[j as int]@);
                }
                if vs[j].kind.0 == kind.0 {
                    found = true;
                    proof {
                        assert(tv[i as int].1[j as int].kind == kind.0);
                        assert(has_kind(kind.0)(tv[i as int]));
                    }
                }
                j = j + 1;
            }
            proof {
                if !found {
                    assert(!pred(tv[i as int]));
                }
            }
            if found {
                let ghost before = ids@;
                ids.push(self.things[i].0);
                proof {
                    assert(ids@ =~= before.push(tv[i as int].0));
                    assert(kind_ids(tv.take(i + 1), kind.0) =~= before.push(tv[i as int].0));
                }
            } else {
                proof {
                    assert(kind_ids(tv.take(i + 1), kind.0) =~= ids@);
                }
            }
            i = i + 1;
        }
        proof {
            assert(tv.take(i as int) =~= tv);
        }
        ids
    }

    /// The latest versions of the Things some version of which has a kind.
    pub fn latest_of_kind(&self, kind: Symbol) -> (r: Vec<GraphThing>)
        requires
            self.wf(),
        ensures
            things_view(r@) == spec_latest_of_kind(self@.things, kind.0),
    {
        let ids = self.kind_ids_exec(kind);
        let ghost s = self@;
        let ghost f = s.things.filter(has_kind(kind.0));
        proof {
            assert(things_wf(f)) by {
                assert forall|a: int, b: int| 0 <= a < b < f.len() implies f[a].0 < f[b].0 by {
                    lemma_filter_sorted(s.things, has_kind(kind.0), a, b);
                }
                assert forall|a: int| 0 <= a < f.len() implies #[trigger] f[a].1.len() > 0 by {
                    assert(f.contains(f[a]));
                    s.things.lemma_filter_contains_rev(has_kind(kind.0), f[a]);
                    let k = choose|k: int| 0 <= k < s.things.len() && s.things[k] == f[a];
                    assert(s.things[k].1.len() > 0);
                }
                assert forall|a: int, j: int| 0 <= a < f.len() && 0 <= j < f[a].1.len() implies #[trigger] f[a].1[j].id == f[a].0 by {
                    assert(f.contains(f[a]));
                    s.things.lemma_filter_contains_rev(has_kind(kind.0), f[a]);
                    let k = choose|k: int| 0 <= k < s.things.len() && s.things[k] == f[a];
                    assert(s.things[k].1[j].id == s.things[k].0);
                }
            }
        }
        let mut out: Vec<GraphThing> = Vec::new();
        let mut i: usize = 0;
        while i < ids.len()
            invariant
                i <= ids@.len(),
                s == self@,
                self.wf(),
                ids@ == kind_ids(s.things, kind.0),
                f == s.things.filter(has_kind(kind.0)),
                things_wf(f),
                things_view(out@) == latest_all(f).take(i as int),
            decreases ids@.len() - i,
        {
            proof {
                assert(ids@[i as int] == f[i as int].0);
                lemma_filter_latest(s, has_kind(kind.0), i as int);
            }
            match self.latest(ids[i]) {
                Some(t) => {
                    let ghost before = things_view(out@);
                    out.push(t);
                    proof {
                        assert(things_view(out@) =~= before.push(latest_all(f)[i as int]));
                        assert(latest_all(f).take(i + 1) =~= latest_all(f).take(i as int).push(latest_all(f)[i as int]));
                    }
                },
                None => {
                    proof {
                        assert(false);
                    }
                },
            }
            i = i + 1;
        }
        proof {
            assert(latest_all(f).take(i as int) =~= latest_all(f));
        }
        out
    }
}

/// A filter of Things sorted by id is sorted by id.
proof fn lemma_filter_sorted(things: Seq<(u128, Seq<ThingView>)>, pred: spec_fn((u128, Seq<ThingView>)) -> bool, a: int, b: int)
    requires
        things_wf(things),
        0 <= a < b < things.filter(pred).len(),
    ensures
        things.filter(pred)[a].0 < things.filter(pred)[b].0,
    decreases things.len(),
{
    reveal(Seq::filter);
    let f = things.filter(pred);
    let rest = things.drop_last();
    assert(things_wf(rest)) by {
        assert forall|x: int, y: int| 0 <= x < y < rest.len() implies rest[x].0 < rest[y].0 by {
            assert(rest[x] == things[x] && rest[y] == things[y]);
        }
        assert forall|x: int| 0 <= x < rest.len() implies #[trigger] rest[x].1.len() > 0 by {
            assert(rest[x] == things[x]);
        }
    }
    let fr = rest.filter(pred);
    if pred(things.last()) {
        assert(f == fr.push(things.last()));
        if b < fr.len() {
            lemma_filter_sorted(rest, pred, a, b);
        } else {
            assert(fr.contains(fr[a]));
            rest.lemma_filter_contains_rev(pred, fr[a]);
            let k = choose|k: int| 0 <= k < rest.len() && rest[k] == fr[a];
            assert(things[k] == rest[k]);
        }
    } else {
        lemma_filter_sorted(rest, pred, a, b);
    }
}

/// The latest version of the `i`th Thing of a filter is the store's latest
/// version of that id.
proof fn lemma_filter_latest(s: KStoreView, pred: spec_fn((u128, Seq<ThingView>)) -> bool, i: int)
    requires
        things_wf(s.things),
        0 <= i < s.things.filter(pred).len(),
    ensures
        spec_latest(s, s.things.filter(pred)[i].0) == Some(latest_all(s.things.filter(pred))[i]),
{
    let f = s.things.filter(pred);
    assert(f.contains(f[i]));
    s.things.lemma_filter_contains_rev(pred, f[i]);
    let k = choose|k: int| 0 <= k < s.things.len() && s.things[k] == f[i];
    lemma_latest_all(s, k);
}


impl Store {
    /// Find the Things of a kind, by its name, that `owner` may read: skip
    /// `cursor` ids of that kind, return up to `FIND_LIMIT` Things and the
    /// cursor to go on from (0 when done).
    pub fn find_by_kind(&self, owner: u128, kind: &str, cursor: u64) -> (r: (Vec<GraphThing>, u64))
        requires
            self.wf(),
        ensures
            (things_view(r.0@), r.1) == spec_find_by_kind(self@, owner, kind@, cursor),
    {
        let symbol = match crate::canon::from_str(kind) {
            Some(sym) => sym,
            None => {
                let v: Vec<GraphThing> = Vec::new();
                proof {
                    assert(things_view(v@) =~= Seq::<ThingView>::empty());
                }
                return (v, 0);
            },
        };
        let ids = self.kind_ids_exec(symbol);
        let ghost s = self@;
        let mut results: Vec<GraphThing> = Vec::new();
        let mut count: u64 = 0;
        let mut i: usize = 0;
        proof {
            assert(things_view(results@) =~= Seq::<ThingView>::empty());
        }
        while i < ids.len()
            invariant
                i <= ids@.len(),
                s == self@,
                self.wf(),
                count <= FIND_LIMIT,
                ids@ == kind_ids(s.things, symbol.0),
                crate::canon::spec_from_str(kind@) == Some(symbol.0),
                kind_scan(s, owner, ids@, cursor, 0, 0, Seq::empty()) == kind_scan(s, owner, ids@, cursor, i as nat, count as nat, things_view(results@)),
            decreases ids@.len() - i,
        {
            if (i as u64) < cursor {
                i = i + 1;
                continue;
            }
            if count >= FIND_LIMIT {
                proof {
                    assert(((count as nat) as u64) == count);
                    assert(kind_scan(s, owner, ids@, cursor, i as nat, count as nat, things_view(results@)) == (things_view(
                        results@,
                    ), crate::host_store::wrap_add(cursor, count)));
                }
                let next = cursor.wrapping_add(count);
                proof {
                    assert(next == crate::host_store::wrap_add(cursor, count));
                }
                return (results, next);
            }
            match self.latest(ids[i]) {
                Some(t) => {
                    if self.can_read(owner, t.id) {
                        let ghost before = things_view(results@);
                        results.push(t);
                        count = count + 1;
                        proof {
                            assert(things_view(results@) =~= before.push(t@));
                        }
                    }
                },
                None => {},
            }
            i = i + 1;
        }
        (results, 0)
    }

    /// The edges from a source by a predicate, in the order added.
    pub fn edges_of(&self, src: u128, pred: Symbol) -> (r: Vec<GraphEdge>)
        ensures
            kedges_view(r@) == spec_edges_of(self@.edges, src, pred.0),
    {
        let ghost ev = self@.edges;
        let ghost f = |e: KEdgeView| e.src == src && e.pred == pred.0;
        let mut out: Vec<GraphEdge> = Vec::new();
        let mut i: usize = 0;
        while i < self.edges.len()
            invariant
                i <= self.edges@.len(),
                ev == self@.edges,
                f == (|e: KEdgeView| e.src == src && e.pred == pred.0),
                kedges_view(out@) == ev.take(i as int).filter(f),
            decreases self.edges@.len() - i,
        {
            proof {
                assert(ev.take(i + 1) =~= ev.take(i as int).push(ev[i as int]));
                ev.take(i as int).lemma_filter_push(ev[i as int], f);
                assert(ev[i as int] == self.edges@[i as int]@);
            }
            if self.edges[i].src == src && self.edges[i].pred.0 == pred.0 {
                let ghost before = kedges_view(out@);
                out.push(self.edges[i].copy());
                proof {
                    assert(kedges_view(out@) =~= before.push(ev[i as int]));
                }
            }
            i = i + 1;
        }
        proof {
            assert(ev.take(i as int) =~= ev);
        }
        out
    }

    /// An empty batch from `revision` up to the last revision handed out.
    pub fn changes_since(&self, revision: u64) -> (b: GraphWatchBatch)
        ensures
            b.from_revision == revision,
            b.latest_revision == sat_dec(self@.next_revision),
            b.changes@.len() == 0,
    {
        GraphWatchBatch { from_revision: revision, latest_revision: self.next_revision.saturating_sub(1), changes: Vec::new() }
    }

    /// The whole store: every version of every Thing and every edge, the last
    /// revision handed out, how many (kind, Thing) pairs are indexed and how
    /// many edges there are.
    pub fn snapshot(&self) -> (snap: GraphSnapshot)
        requires
            self.wf(),
        ensures
            snap.revision == sat_dec(self@.next_revision),
            snap.thing_count == kind_entries(self@.things),
            snap.edge_count == self@.edges.len(),
            things_view(snap.things@) == all_versions(self@.things),
            kedges_view(snap.edges@) == self@.edges,
    {
        let ghost tv = self@.things;
        let mut things: Vec<GraphThing> = Vec::new();
        let mut thing_count: usize = 0;
        let mut i: usize = 0;
        proof {
            assert(things_view(things@) =~= Seq::<ThingView>::empty());
            assert(tv.take(0) =~= Seq::<(u128, Seq<ThingView>)>::empty());
        }
        while i < self.things.len()
            invariant
                i <= self.things@.len(),
                tv == self@.things,
                things_view(things@) == all_versions(tv.take(i as int)),
                thing_count == kind_entries(tv.take(i as int)),
                thing_count <= things@.len(),
            decreases self.things@.len() - i,
        {
            let vs = &self.things[i].1;
            let mut kinds = SymbolSet::new();
            let mut j: usize = 0;
            let ghost start = things_view(things@);
            let ghost vv = tv[i as int].1;
            proof {
                assert(vv == things_view(vs@));
                assert(vv.take(0).map_values(|t: ThingView| t.kind).to_set() =~= Set::<u32>::empty());
            }
            while j < vs.len()
                invariant
                    j <= vs@.len(),
                    i < self.things@.len(),
                    vs == &self.things@[i as int].1,
                    vv == things_view(vs@),
                    things_view(things@) == start + vv.take(j as int),
                    kinds@ == kinds_of(vv.take(j as int)),
                    start.len() + j == things@.len(),
                decreases vs@.len() - j,
            {
                let ghost before = things_view(things@);
                let ghost kbefore = kinds@;
                things.push(vs[j].copy());
                kinds.insert(vs[j].kind);
                proof {
                    assert(vv[j as int] == vs@[j as int]@);
                    assert(vv.take(j + 1) =~= vv.take(j as int).push(vv[j as int]));
                    assert(things_view(things@) =~= before.push(vv[j as int]));
                    assert(vv.take(j + 1).map_values(|t: ThingView| t.kind) =~= vv.take(j as int).map_values(|t: ThingView| t.kind).push(vv[j as int].kind));
                    vv.take(j as int).map_values(|t: ThingView| t.kind).lemma_push_to_set_commute(vv[j as int].kind);
                }
                j = j + 1;
            }
            let k = kinds.len();
            proof {
                assert(vv.take(j as int) =~= vv);
                assert(tv.take(i + 1).drop_last() =~= tv.take(i as int));
                assert(tv.take(i + 1).last() == tv[i as int]);
                vv.map_values(|t: ThingView| t.kind).lemma_cardinality_of_set();
                assert(k <= vv.len());
                assert(thing_count <= start.len());
                assert(thing_count + k <= things@.len());
            }
            let total = things.len();
            proof {
                assert(thing_count + k <= total);
            }
            thing_count = thing_count + k;
            i = i + 1;
        }
        proof {
            assert(tv.take(i as int) =~= tv);
        }
        let mut edges: Vec<GraphEdge> = Vec::new();
        let mut e: usize = 0;
        proof {
            assert(kedges_view(edges@) =~= self@.edges.take(0));
        }
        while e < self.edges.len()
            invariant
                e <= self.edges@.len(),
                kedges_view(edges@) == self@.edges.take(e as int),
            decreases self.edges@.len() - e,
        {
            let ghost before = kedges_view(edges@);
            edges.push(self.edges[e].copy());
            proof {
                assert(self@.edges[e as int] == self.edges@[e as int]@);
                assert(kedges_view(edges@) =~= before.push(self@.edges[e as int]));
                assert(self@.edges.take(e + 1) =~= self@.edges.take(e as int).push(self@.edges[e as int]));
            }
            e = e + 1;
        }
        proof {
            assert(self@.edges.take(e as int) =~= self@.edges);
        }
        GraphSnapshot {
            revision: self.next_revision.saturating_sub(1),
            thing_count,
            edge_count: self.edges.len(),
            things,
            edges,
        }
    }

    /// Restore the store from a snapshot: Things and edges added in order,
    /// watches dropped, revisions going on after the snapshot's.
    pub fn apply_snapshot(&mut self, snapshot: GraphSnapshot)
        requires
            old(self).wf(),
        ensures
            final(self).wf(),
            final(self)@ == spec_apply_snapshot(old(self)@, snapshot.revision, things_view(snapshot.things@), kedges_view(snapshot.edges@)),
    {
        let ghost nw = self@.next_watch_id;
        self.things = Vec::new();
        self.edges = Vec::new();
        self.watches = Vec::new();
        let ghost ts = things_view(snapshot.things@);
        let ghost es = kedges_view(snapshot.edges@);
        proof {
            assert(self@.things =~= insert_things(ts.take(0)));
            assert(self@.edges =~= insert_edges(es.take(0)));
            assert(self@.watches =~= Seq::<(u64, KWatchView)>::empty());
        }
        let mut i: usize = 0;
        while i < snapshot.things.len()
            invariant
                i <= snapshot.things@.len(),
                ts == things_view(snapshot.things@),
                self.wf(),
                self@.things == insert_things(ts.take(i as int)),
                self@.edges == insert_edges(es.take(0)),
                self@.watches.len() == 0,
                self@.next_watch_id == nw,
            decreases snapshot.things@.len() - i,
        {
            self.insert_thing(snapshot.things[i].copy());
            proof {
                assert(ts.take(i + 1).drop_last() =~= ts.take(i as int));
            }
            i = i + 1;
        }
        let mut j: usize = 0;
        while j < snapshot.edges.len()
            invariant
                j <= snapshot.edges@.len(),
                es == kedges_view(snapshot.edges@),
                self.wf(),
                self@.things == insert_things(ts.take(i as int)),
                i == ts.len(),
                self@.edges == insert_edges(es.take(j as int)),
                self@.watches.len() == 0,
                self@.next_watch_id == nw,
            decreases snapshot.edges@.len() - j,
        {
            self.insert_edge(snapshot.edges[j].copy());
            proof {
                assert(es.take(j + 1).drop_last() =~= es.take(j as int));
            }
            j = j + 1;
        }
        self.next_revision = snapshot.revision.saturating_add(1);
        proof {
            assert(ts.take(i as int) =~= ts);
            assert(es.take(j as int) =~= es);
            assert(self@.watches =~= Seq::<(u64, KWatchView)>::empty());
        }
    }
}


/// The id of a bundle name: the name-based identifier of its UTF-8 bytes.
pub open spec fn spec_bundle_id(name: &str) -> u128 {
    spec_uuid_v5(NAMESPACE_OID, name.spec_bytes())
}

/// The id of a bundle name.
pub fn bundle_id(name: &str) -> (id: u128)
    ensures
        id == spec_bundle_id(name),
{
    uuid_v5(NAMESPACE_OID, name.as_bytes())
}

/// The fields of a new bundle's node: its id, name, type symbol, status
/// `INIT`, and version when given.
pub open spec fn bundle_fields(id: u128, name: Seq<char>, bundle_type: BundleType, version: Option<Seq<char>>) -> Map<u32, ValueView> {
    let m = Map::<u32, ValueView>::empty().insert(ID, ValueView::Uuid(id)).insert(NAME, ValueView::Text(name)).insert(
        TYPE,
        ValueView::Symbol(bundle_type.spec_symbol()),
    ).insert(STATUS, ValueView::Symbol(INIT));
    match version {
        Some(v) => m.insert(VERSION, ValueView::Text(v)),
        None => m,
    }
}

/// The view of an optional string.
pub open spec fn opt_str_view(s: Option<&str>) -> Option<Seq<char>> {
    match s {
        Some(v) => Some(v@),
        None => None,
    }
}

/// Create a bundle's node under a known id, owned by the bundle itself;
/// `ownership_id` is the id of its ownership edge. Returns the id.
pub fn create_bundle_with_id(store: &mut Store, id: u128, name: &str, bundle_type: BundleType, version: Option<&str>, ownership_id: u128) -> (r: u128)
    requires
        old(store).wf(),
    ensures
        final(store).wf(),
        r == id,
        final(store)@ == spec_fiat_node(old(store)@, id, Some(id), seq![Symbol(BUNDLE)], bundle_fields(id, name@, bundle_type, opt_str_view(version)), id, ownership_id).0,
{
    let mut fields = SymbolMap::new();
    fields.insert(Symbol(ID), Value::Uuid(id));
    fields.insert(Symbol(NAME), Value::text(name));
    fields.insert(Symbol(TYPE), Value::Symbol(bundle_type.to_symbol()));
    fields.insert(Symbol(STATUS), Value::Symbol(Symbol(INIT)));
    match version {
        Some(v) => fields.insert(Symbol(VERSION), Value::text(v)),
        None => {},
    }
    let req = GraphFiatRequest { id: Some(id), kind: Symbol(BUNDLE), fields };
    store.fiat(id, req, id, ownership_id);
    id
}

/// Create a bundle's node under the id of its name; `ownership_id` is the id
/// of its ownership edge. Returns the id.
pub fn create_bundle(store: &mut Store, name: &str, bundle_type: BundleType, version: Option<&str>, ownership_id: u128) -> (r: u128)
    requires
        old(store).wf(),
    ensures
        final(store).wf(),
        r == spec_bundle_id(name),
        final(store)@ == spec_fiat_node(old(store)@, r, Some(r), seq![Symbol(BUNDLE)], bundle_fields(r, name@, bundle_type, opt_str_view(version)), r, ownership_id).0,
{
    let id = bundle_id(name);
    create_bundle_with_id(store, id, name, bundle_type, version, ownership_id)
}

/// The bundle of a name, if its node exists and is a bundle.
pub open spec fn spec_lookup_bundle(s: KStoreView, name: &str) -> Option<u128> {
    match spec_latest(s, spec_bundle_id(name)) {
        Some(t) => if t.kind == BUNDLE {
            Some(t.id)
        } else {
            None
        },
        None => None,
    }
}

/// The bundle of a name, if its node exists and is a bundle.
pub fn lookup_bundle(store: &Store, name: &str) -> (r: Option<u128>)
    requires
        store.wf(),
    ensures
        r == spec_lookup_bundle(store@, name),
{
    let id = bundle_id(name);
    match store.latest(id) {
        Some(t) => if t.kind.0 == BUNDLE {
            Some(t.id)
        } else {
            None
        },
        None => None,
    }
}

/// The bundle of a name, created (with the type its name suggests, no
/// version) when absent; `ownership_id` is the id of the new node's ownership edge.
pub fn get_or_create_bundle(store: &mut Store, name: &str, ownership_id: u128) -> (r: u128)
    requires
        old(store).wf(),
    ensures
        final(store).wf(),
        match spec_lookup_bundle(old(store)@, name) {
            Some(id) => r == id && final(store)@ == old(store)@,
            None => r == spec_bundle_id(name) && final(store)@ == spec_fiat_node(old(store)@, r, Some(r), seq![Symbol(BUNDLE)], bundle_fields(r, name@, BundleType::spec_from_name(name@), None), r, ownership_id).0,
        },
{
    match lookup_bundle(store, name) {
        Some(id) => id,
        None => {
            let t = BundleType::from_name(name);
            create_bundle(store, name, t, None, ownership_id)
        },
    }
}

/// The kernel grants a bundle a capability on a target; `edge_id` is the id
/// of the capability edge.
pub fn grant_initial_capability(store: &mut Store, bundle: u128, target: u128, capability: Symbol, edge_id: u128) -> (r: bool)
    requires
        old(store).wf(),
    ensures
        final(store).wf(),
        (final(store)@, r) == spec_grant(old(store)@, KERNEL_BUNDLE_ID, bundle, target, capability.0, edge_id),
{
    store.grant_capability(KERNEL_BUNDLE_ID, GrantCapabilityRequest { grantee: bundle, target, capability }, edge_id)
}

/// What a shared buffer is declared with.
#[derive(Debug)]
pub struct SharedBufferSpec {
    pub id: Option<u128>,
    pub size_bytes: u64,
    pub kind: Symbol,
    pub usage: Symbol,
    pub addr: Option<u64>,
    pub props: SymbolMap,
}

/// What a queue state is declared with.
#[derive(Debug)]
pub struct QueueStateSpec {
    pub id: Option<u128>,
    pub buffer: u128,
    pub owner: u128,
    pub head: u64,
    pub tail: u64,
    pub has_data: bool,
    pub capacity: Option<u64>,
    pub props: SymbolMap,
}

/// The fields of a shared buffer node: the given properties with its size,
/// kind, usage, owner and (when known) address set.
pub open spec fn shared_buffer_fields(owner: u128, size: u64, kind: u32, usage: u32, addr: Option<u64>, props: Map<u32, ValueView>) -> Map<u32, ValueView> {
    let m = props.insert(BYTES, ValueView::U64(size)).insert(BUFFER_KIND, ValueView::Symbol(kind)).insert(
        BUFFER_USAGE,
        ValueView::Symbol(usage),
    ).insert(OWNER, ValueView::Uuid(owner));
    match addr {
        Some(a) => m.insert(ADDR, ValueView::U64(a)),
        None => m,
    }
}

/// The node request declaring a shared buffer for `owner`.
pub fn shared_buffer_request(owner: u128, spec: SharedBufferSpec) -> (r: GraphNodeRequest)
    ensures
        r.id == spec.id,
        r.labels@ == seq![Symbol(SHARED_BUFFER)],
        r.props@ == shared_buffer_fields(owner, spec.size_bytes, spec.kind.0, spec.usage.0, spec.addr, spec.props@),
{
    let mut fields = spec.props;
    fields.insert(Symbol(BYTES), Value::U64(spec.size_bytes));
    fields.insert(Symbol(BUFFER_KIND), Value::Symbol(spec.kind));
    fields.insert(Symbol(BUFFER_USAGE), Value::Symbol(spec.usage));
    fields.insert(Symbol(OWNER), Value::Uuid(owner));
    match spec.addr {
        Some(a) => fields.insert(Symbol(ADDR), Value::U64(a)),
        None => {},
    }
    let mut labels: Vec<Symbol> = Vec::new();
    labels.push(Symbol(SHARED_BUFFER));
    proof {
        assert(labels@ =~= seq![Symbol(SHARED_BUFFER)]);
    }
    GraphNodeRequest { id: spec.id, labels, props: fields }
}

/// Declare a shared buffer for `owner` (see `fiat_node` for the two ids).
pub fn declare_shared_buffer(store: &mut Store, owner: u128, spec: SharedBufferSpec, derived: u128, ownership_id: u128) -> (t: GraphThing)
    requires
        old(store).wf(),
    ensures
        final(store).wf(),
        (final(store)@, t@) == spec_fiat_node(old(store)@, owner, spec.id, seq![Symbol(SHARED_BUFFER)], shared_buffer_fields(owner, spec.size_bytes, spec.kind.0, spec.usage.0, spec.addr, spec.props@), derived, ownership_id),
{
    let req = shared_buffer_request(owner, spec);
    store.fiat_node(owner, req, derived, ownership_id)
}

/// The fields of a queue state node: the given properties with its buffer,
/// head, tail, whether it has data, owner and (when known) capacity set.
pub open spec fn queue_state_fields(buffer: u128, owner: u128, head: u64, tail: u64, has_data: bool, capacity: Option<u64>, props: Map<u32, ValueView>) -> Map<u32, ValueView> {
    let m = props.insert(BUFFER, ValueView::Uuid(buffer)).insert(HEAD, ValueView::U64(head)).insert(TAIL, ValueView::U64(tail)).insert(
        HAS_DATA,
        ValueView::Bool(has_data),
    ).insert(OWNER, ValueView::Uuid(owner));
    match capacity {
        Some(c) => m.insert(CAPACITY, ValueView::U64(c)),
        None => m,
    }
}

/// The node request declaring a queue state (owned by the spec's owner).
pub fn queue_state_request(spec: QueueStateSpec) -> (r: GraphNodeRequest)
    ensures
        r.id == spec.id,
        r.labels@ == seq![Symbol(QUEUE_STATE)],
        r.props@ == queue_state_fields(spec.buffer, spec.owner, spec.head, spec.tail, spec.has_data, spec.capacity, spec.props@),
{
    let mut fields = spec.props;
    fields.insert(Symbol(BUFFER), Value::Uuid(spec.buffer));
    fields.insert(Symbol(HEAD), Value::U64(spec.head));
    fields.insert(Symbol(TAIL), Value::U64(spec.tail));
    fields.insert(Symbol(HAS_DATA), Value::Bool(spec.has_data));
    fields.insert(Symbol(OWNER), Value::Uuid(spec.owner));
    match spec.capacity {
        Some(c) => fields.insert(Symbol(CAPACITY), Value::U64(c)),
        None => {},
    }
    let mut labels: Vec<Symbol> = Vec::new();
    labels.push(Symbol(QUEUE_STATE));
    proof {
        assert(labels@ =~= seq![Symbol(QUEUE_STATE)]);
    }
    GraphNodeRequest { id: spec.id, labels, props: fields }
}

/// Declare a queue state for its owner (see `fiat_node` for the two ids).
pub fn declare_queue_state(store: &mut Store, spec: QueueStateSpec, derived: u128, ownership_id: u128) -> (t: GraphThing)
    requires
        old(store).wf(),
    ensures
        final(store).wf(),
        (final(store)@, t@) == spec_fiat_node(old(store)@, spec.owner, spec.id, seq![Symbol(QUEUE_STATE)], queue_state_fields(spec.buffer, spec.owner, spec.head, spec.tail, spec.has_data, spec.capacity, spec.props@), derived, ownership_id),
{
    let owner = spec.owner;
    let req = queue_state_request(spec);
    store.fiat_node(owner, req, derived, ownership_id)
}

/// The properties a queue state update sets.
pub open spec fn queue_update_props(head: u64, tail: u64, has_data: bool, capacity: Option<u64>) -> Map<u32, ValueView> {
    let m = Map::<u32, ValueView>::empty().insert(HEAD, ValueView::U64(head)).insert(TAIL, ValueView::U64(tail)).insert(
        HAS_DATA,
        ValueView::Bool(has_data),
    );
    match capacity {
        Some(c) => m.insert(CAPACITY, ValueView::U64(c)),
        None => m,
    }
}

/// Update a queue state's head, tail, data flag and (when given) capacity.
pub fn update_queue_state(store: &mut Store, owner: u128, queue_id: u128, head: u64, tail: u64, has_data: bool, capacity: Option<u64>) -> (r: bool)
    requires
        old(store).wf(),
    ensures
        final(store).wf(),
        (final(store)@, r) == spec_set_props(old(store)@, owner, queue_id, queue_update_props(head, tail, has_data, capacity)),
{
    let mut props = SymbolMap::new();
    props.insert(Symbol(HEAD), Value::U64(head));
    props.insert(Symbol(TAIL), Value::U64(tail));
    props.insert(Symbol(HAS_DATA), Value::Bool(has_data));
    match capacity {
        Some(c) => props.insert(Symbol(CAPACITY), Value::U64(c)),
        None => {},
    }
    store.set_props(owner, GraphPropsRequest { node: queue_id, props })
}

/// The text a new Thing puts on the console: that of a `WRITE` Thing's
/// fields, nothing for other kinds.
pub fn console_text(t: &GraphThing) -> (r: Option<String>)
    ensures
        t.kind.0 != WRITE ==> r is None,
        t.kind.0 == WRITE ==> match r {
            Some(x) => crate::abi::spec_extract_text(ValueView::Dict(t.fields@)) == Some(x@),
            None => crate::abi::spec_extract_text(ValueView::Dict(t.fields@)) is None,
        },
{
    if t.kind.0 != WRITE {
        return None;
    }
    let v = Value::Dict(t.fields.copy());
    crate::abi::extract_text(&v)
}

} // verus!
