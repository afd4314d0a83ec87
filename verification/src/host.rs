//! The host runtime: answers Thing ABI requests from an in-memory graph
//! store, keeps watches on it, and serves the keyboard and mouse byte queues.

use vstd::prelude::*;
use crate::abi::{SymbolMap, ValueView};
use crate::alist::{
    alist_find, alist_get, alist_put, alist_remove, alist_unique, lemma_alist_at,
    lemma_alist_put_unique, lemma_alist_remove,
};
use crate::canon::{Symbol, spec_sym_name, sym_name};
use crate::host_store::{
    InMemoryGraphStore, StoreView, pattern_matches, store_fiat, store_find, store_get_id, store_link,
    store_props_get, store_props_set, store_query, thing_matches, wrap_inc,
};
use crate::records::{
    AbiRequest, AbiResponse, ChangeView, EdgeView, GraphChange, GraphEdge, GraphFiatRequest,
    GraphGetRequest, GraphLinkRequest, GraphThing, GraphWatchBatch, NodePattern, PatternView,
    ResponseView, ThingView, changes_view, things_view,
};

verus! {

broadcast use vstd::seq_lib::group_filter_ensures;

/// What a watch holds: its pattern, the changes not yet delivered, and the
/// latest revision it has seen.
pub struct WatchView {
    pub pattern: PatternView,
    pub queue: Seq<ChangeView>,
    pub last_revision: u64,
}

/// What the host runtime holds.
pub struct HostView {
    pub store: StoreView,
    pub watchers: Seq<(u64, WatchView)>,
    pub next_watch: u64,
    pub keyboard: Seq<u8>,
    pub mouse: Seq<u8>,
    pub devices: Seq<(u64, (u32, usize))>,
    pub next_handle: u64,
}

/// The name of a well-known symbol, if it has one.
pub open spec fn spec_symbol_name(code: u32) -> Option<Seq<char>> {
    if spec_sym_name(code).len() == 0 {
        None
    } else {
        Some(spec_sym_name(code))
    }
}

/// Whether an edge matches a pattern: one of the pattern's labels (if it has
/// any) names the edge's predicate, and the pattern asks for no property.
pub open spec fn edge_matches(e: EdgeView, p: PatternView) -> bool {
    &&& (p.labels.len() == 0 || exists|i: int| 0 <= i < p.labels.len() && spec_symbol_name(#[trigger] p.labels[i]) == Some(e.pred))
    &&& p.props == Map::<u32, ValueView>::empty()
}

/// Whether a change concerns a pattern.
pub open spec fn match_change(c: ChangeView, p: PatternView) -> bool {
    match c {
        ChangeView::Thing(t) => pattern_matches(t, p),
        ChangeView::Edge(e) => edge_matches(e, p),
    }
}

/// A watch after it is told of a change.
pub open spec fn notify(w: WatchView, c: ChangeView) -> WatchView {
    if match_change(c, w.pattern) {
        WatchView { queue: w.queue.push(c), last_revision: c.revision(), ..w }
    } else {
        w
    }
}

/// Every watch told of a change.
pub open spec fn notify_all(ws: Seq<(u64, WatchView)>, c: ChangeView) -> Seq<(u64, WatchView)> {
    ws.map_values(|p: (u64, WatchView)| (p.0, notify(p.1, c)))
}

/// `c` inserted before the first change with a greater revision.
pub open spec fn insert_by_revision(s: Seq<ChangeView>, c: ChangeView) -> Seq<ChangeView>
    decreases s.len(),
{
    if s.len() == 0 {
        seq![c]
    } else if c.revision() < s[0].revision() {
        seq![c] + s
    } else {
        seq![s[0]] + insert_by_revision(s.drop_first(), c)
    }
}

/// The changes in order of revision, those with equal revisions in their
/// order of arrival (a stable sort).
pub open spec fn sort_by_revision(s: Seq<ChangeView>) -> Seq<ChangeView>
    decreases s.len(),
{
    if s.len() == 0 {
        s
    } else {
        insert_by_revision(sort_by_revision(s.drop_last()), s.last())
    }
}

/// The greatest revision among the changes and `init`.
pub open spec fn max_revision(s: Seq<ChangeView>, init: u64) -> u64
    decreases s.len(),
{
    if s.len() == 0 {
        init
    } else {
        let m = max_revision(s.drop_last(), init);
        if s.last().revision() > m {
            s.last().revision()
        } else {
            m
        }
    }
}

/// Changes for the Things a watch's pattern matches now, newer than what it has seen.
pub open spec fn fresh_changes(store: StoreView, w: WatchView) -> Seq<ChangeView> {
    store_query(store, w.pattern).filter(|t: ThingView| t.revision > w.last_revision).map_values(
        |t: ThingView| ChangeView::Thing(t),
    )
}

/// An empty batch.
pub open spec fn no_events() -> ResponseView {
    ResponseView::WatchEvents { from_revision: 0, latest_revision: 0, changes: Seq::empty() }
}

/// Poll a watch: its queue gains the fresh changes and is sorted by revision;
/// up to `max_events` (all when absent) are delivered from its front; it has
/// then seen the latest revision among them all.
pub open spec fn spec_poll(h: HostView, watch_id: u64, max_events: Option<u32>) -> (HostView, ResponseView) {
    match alist_get(h.watchers, watch_id) {
        None => (h, no_events()),
        Some(w) => {
            let q = sort_by_revision(w.queue + fresh_changes(h.store, w));
            let latest = max_revision(q, w.last_revision);
            let n: int = match max_events {
                Some(c) => if (c as int) < q.len() {
                    c as int
                } else {
                    q.len() as int
                },
                None => q.len() as int,
            };
            let w2 = WatchView { pattern: w.pattern, queue: q.subrange(n, q.len() as int), last_revision: latest };
            (
                HostView { watchers: alist_put(h.watchers, watch_id, w2), ..h },
                ResponseView::WatchEvents {
                    from_revision: w.last_revision,
                    latest_revision: latest,
                    changes: q.subrange(0, n),
                },
            )
        },
    }
}

/// Read up to `len` bytes of a device queue.
pub open spec fn take_bytes(q: Seq<u8>, len: usize) -> (Seq<u8>, Seq<u8>) {
    let n: int = if (len as int) < q.len() {
        len as int
    } else {
        q.len() as int
    };
    (q.subrange(0, n), q.subrange(n, q.len() as int))
}

/// Read from an open device: the keyboard (kind 1) and the mouse (kind 2)
/// hand out queued bytes; anything else reads nothing.
pub open spec fn spec_dev_read(h: HostView, handle: u64, len: usize) -> (HostView, ResponseView) {
    match alist_get(h.devices, handle) {
        Some((kind, _)) => if kind == 1 {
            (HostView { keyboard: take_bytes(h.keyboard, len).1, ..h }, ResponseView::DevRead { data: take_bytes(h.keyboard, len).0 })
        } else if kind == 2 {
            (HostView { mouse: take_bytes(h.mouse, len).1, ..h }, ResponseView::DevRead { data: take_bytes(h.mouse, len).0 })
        } else {
            (h, ResponseView::DevRead { data: Seq::empty() })
        },
        None => (h, ResponseView::DevRead { data: Seq::empty() }),
    }
}

/// The message of a store error.
pub open spec fn not_found_message() -> Seq<char> {
    seq!['t', 'h', 'i', 'n', 'g', ' ', 'n', 'o', 't', ' ', 'f', 'o', 'u', 'n', 'd']
}

/// What the host runtime does with a request: the state after and the reply.
pub open spec fn spec_call(h: HostView, req: AbiRequest) -> (HostView, ResponseView) {
    match req {
        AbiRequest::Fiat { id, kind, labels, fields } => {
            let ls = if labels@.len() == 0 {
                seq![kind.0]
            } else {
                labels@.map_values(|s: Symbol| s.0)
            };
            let (st, t) = store_fiat(h.store, id, kind.0, ls, fields@);
            (HostView { store: st, watchers: notify_all(h.watchers, ChangeView::Thing(t)), ..h }, ResponseView::Fiat { thing: t })
        },
        AbiRequest::Link { id, from, pred, to, props } => {
            let (st, e) = store_link(h.store, id, pred@, from, to, props@);
            (HostView { store: st, watchers: notify_all(h.watchers, ChangeView::Edge(e)), ..h }, ResponseView::Link { edge: Some(e) })
        },
        AbiRequest::Get { id } => {
            let r = store_get_id(h.store, id);
            (h, ResponseView::Get { thing: if r.len() > 0 { Some(r[0]) } else { None } })
        },
        AbiRequest::Query { pattern } => (h, ResponseView::Query { things: store_query(h.store, pattern@) }),
        AbiRequest::FindByKind { kind, cursor } => {
            let (things, next_cursor) = store_find(h.store, kind@, cursor);
            (h, ResponseView::Find { things, next_cursor })
        },
        AbiRequest::WatchRegister { pattern } => (
            HostView {
                watchers: alist_put(h.watchers, h.next_watch, WatchView { pattern: pattern@, queue: Seq::empty(), last_revision: 0 }),
                next_watch: wrap_inc(h.next_watch),
                ..h
            },
            ResponseView::WatchRegistered { watch_id: h.next_watch },
        ),
        AbiRequest::WatchUnregister { watch_id } => (
            HostView { watchers: alist_remove(h.watchers, watch_id), ..h },
            ResponseView::WatchUnregistered,
        ),
        AbiRequest::WatchPoll { watch_id, max_events } => spec_poll(h, watch_id, max_events),
        AbiRequest::PropsGet { request } => match store_props_get(h.store, request.node, request.keys@.map_values(|k: Symbol| k.0)) {
            Some(m) => (h, ResponseView::Props { props: m }),
            None => (h, ResponseView::Error { message: not_found_message() }),
        },
        AbiRequest::PropsSet { request } => match store_props_set(h.store, request.node, request.props@) {
            Some((st, t)) => (
                HostView { store: st, watchers: notify_all(h.watchers, ChangeView::Thing(t)), ..h },
                ResponseView::Props { props: t.fields },
            ),
            None => (h, ResponseView::Error { message: not_found_message() }),
        },
        AbiRequest::DevOpen { kind, index } => (
            HostView { devices: alist_put(h.devices, h.next_handle, (kind, index)), next_handle: wrap_inc(h.next_handle), ..h },
            ResponseView::DevOpened { handle: Some(h.next_handle) },
        ),
        AbiRequest::DevRead { handle, len } => spec_dev_read(h, handle, len),
        AbiRequest::DevWrite { .. } => (h, ResponseView::DevWritten { len: 0 }),
        AbiRequest::IrqBind { .. } => (h, ResponseView::IrqBound { handle: Some(1) }),
        AbiRequest::IrqAck { .. } => (h, ResponseView::IrqAcked),
        AbiRequest::GrantCapability { .. } => (h, ResponseView::CapabilityGranted { granted: true }),
    }
}

/// Inserting before the first greater revision is a sequence insertion there.
proof fn lemma_insert_by_revision(s: Seq<ChangeView>, c: ChangeView, i: int)
    requires
        0 <= i <= s.len(),
        forall|j: int| 0 <= j < i ==> s[j].revision() <= c.revision(),
        i < s.len() ==> s[i].revision() > c.revision(),
    ensures
        insert_by_revision(s, c) == s.insert(i, c),
    decreases s.len(),
{
    if s.len() == 0 {
        assert(seq![c] =~= s.insert(0, c));
    } else if i == 0 {
        assert(seq![c] + s =~= s.insert(0, c));
    } else {
        lemma_insert_by_revision(s.drop_first(), c, i - 1);
        assert(seq![s[0]] + s.drop_first().insert(i - 1, c) =~= s.insert(i, c));
    }
}

struct WatchState {
    pattern: NodePattern,
    queue: Vec<GraphChange>,
    last_revision: u64,
}

impl View for WatchState {
    type V = WatchView;

    closed spec fn view(&self) -> WatchView {
        WatchView { pattern: self.pattern@, queue: changes_view(self.queue@), last_revision: self.last_revision }
    }
}

/// The views of a table of watches.
spec fn watchers_view(s: Seq<(u64, WatchState)>) -> Seq<(u64, WatchView)> {
    s.map_values(|p: (u64, WatchState)| (p.0, p.1@))
}

/// The host runtime.
pub struct HostRuntime {
    store: InMemoryGraphStore,
    watchers: Vec<(u64, WatchState)>,
    next_watch: u64,
    keyboard_fifo: Vec<u8>,
    mouse_fifo: Vec<u8>,
    open_devices: Vec<(u64, (u32, usize))>,
    next_handle: u64,
}

impl View for HostRuntime {
    type V = HostView;

    closed spec fn view(&self) -> HostView {
        HostView {
            store: self.store@,
            watchers: watchers_view(self.watchers@),
            next_watch: self.next_watch,
            keyboard: self.keyboard_fifo@,
            mouse: self.mouse_fifo@,
            devices: self.open_devices@,
            next_handle: self.next_handle,
        }
    }
}

/// Whether an edge matches a pattern.
fn edge_matches_exec(e: &GraphEdge, p: &NodePattern) -> (r: bool)
    ensures
        r == edge_matches(e@, p@),
{
    let ghost pv = p@;
    if p.labels.len() != 0 {
        let mut found = false;
        let mut i: usize = 0;
        while i < p.labels.len()
            invariant
                i <= p.labels@.len(),
                pv == p@,
                found == exists|j: int| 0 <= j < i && spec_symbol_name(#[trigger] pv.labels[j]) == Some(e.pred@),
            decreases p.labels@.len() - i,
        {
            let name = sym_name(p.labels[i]);
            proof {
                assert(pv.labels[i as int] == p.labels@[i as int].0);
            }
            if name.unicode_len() != 0 && crate::canon::str_eq(name, e.pred.as_str()) {
                found = true;
            }
            i = i + 1;
        }
        if !found {
            return false;
        }
    }
    p.props.is_empty()
}

/// Whether a change concerns a pattern.
fn match_change_exec(c: &GraphChange, p: &NodePattern) -> (r: bool)
    ensures
        r == match_change(c@, p@),
{
    match c {
        GraphChange::Thing(t) => thing_matches(t, p),
        GraphChange::Edge(e) => edge_matches_exec(e, p),
    }
}

/// The state a host runtime can be in: Things ordered by id, watch and
/// device tables with unique keys.
pub open spec fn host_wf(h: HostView) -> bool {
    &&& crate::host_store::ids_increasing(h.store.things)
    &&& alist_unique(h.watchers)
    &&& alist_unique(h.devices)
}

impl HostRuntime {
    /// A well-formed runtime is in such a state.
    pub proof fn lemma_wf(&self)
        requires
            self.wf(),
        ensures
            host_wf(self@),
    {
        self.store.lemma_wf();
    }

    /// The store is ordered and watch and device tables have unique keys.
    pub closed spec fn wf(&self) -> bool {
        &&& self.store.wf()
        &&& alist_unique(self@.watchers)
        &&& alist_unique(self@.devices)
    }

    /// A runtime over an empty in-memory store; watch ids and device handles start at 1.
    pub fn new() -> (h: HostRuntime)
        ensures
            h.wf(),
            h@.store.things == Seq::<ThingView>::empty(),
            h@.store.edges == Seq::<EdgeView>::empty(),
            h@.store.revision == 1,
            h@.store.uuid_counter == 0,
            h@.watchers == Seq::<(u64, WatchView)>::empty(),
            h@.next_watch == 1,
            h@.keyboard == Seq::<u8>::empty(),
            h@.mouse == Seq::<u8>::empty(),
            h@.devices == Seq::<(u64, (u32, usize))>::empty(),
            h@.next_handle == 1,
    {
        let h = HostRuntime {
            store: InMemoryGraphStore::new(),
            watchers: Vec::new(),
            next_watch: 1,
            keyboard_fifo: Vec::new(),
            mouse_fifo: Vec::new(),
            open_devices: Vec::new(),
            next_handle: 1,
        };
        assert(h@.watchers =~= Seq::<(u64, WatchView)>::empty());
        h
    }

    /// Queue a keyboard scancode.
    pub fn push_scancode(&mut self, code: u8)
        requires
            old(self).wf(),
        ensures
            final(self).wf(),
            final(self)@ == (HostView { keyboard: old(self)@.keyboard.push(code), ..old(self)@ }),
    {
        self.keyboard_fifo.push(code);
    }

    /// Queue the bytes of a mouse packet.
    pub fn push_mouse_packet(&mut self, packet: &[u8])
        requires
            old(self).wf(),
        ensures
            final(self).wf(),
            final(self)@ == (HostView { mouse: old(self)@.mouse + packet@, ..old(self)@ }),
    {
        let mut fifo: Vec<u8> = Vec::new();
        std::mem::swap(&mut fifo, &mut self.mouse_fifo);
        let ghost start = fifo@;
        let mut i: usize = 0;
        while i < packet.len()
            invariant
                i <= packet@.len(),
                fifo@ == start + packet@.subrange(0, i as int),
            decreases packet@.len() - i,
        {
            fifo.push(packet[i]);
            proof {
                assert(start + packet@.subrange(0, i + 1) =~= (start + packet@.subrange(0, i as int)).push(packet@[i as int]));
            }
            i = i + 1;
        }
        proof {
            assert(packet@.subrange(0, i as int) =~= packet@);
        }
        self.mouse_fifo = fifo;
    }

    fn push_change(&mut self, change: &GraphChange)
        ensures
            final(self)@ == (HostView { watchers: notify_all(old(self)@.watchers, change@), ..old(self)@ }),
            final(self).store == old(self).store,
    {
        let mut ws: Vec<(u64, WatchState)> = Vec::new();
        std::mem::swap(&mut ws, &mut self.watchers);
        let ghost start = watchers_view(ws@);
        let mut i: usize = 0;
        while i < ws.len()
            invariant
                i <= ws@.len(),
                ws@.len() == start.len(),
                forall|j: int| 0 <= j < i ==> #[trigger] watchers_view(ws@)[j] == (start[j].0, notify(start[j].1, change@)),
                forall|j: int| i <= j < start.len() ==> #[trigger] watchers_view(ws@)[j] == start[j],
            decreases ws@.len() - i,
        {
            if match_change_exec(change, &ws[i].1.pattern) {
                let c = change.copy();
                let rev = change.revision();
                let ghost before = ws@;
                proof {
                    assert(watchers_view(before)[i as int] == start[i as int]);
                    assert(start[i as int].1 == before[i as int].1@);
                }
                ws[i].1.queue.push(c);
                ws[i].1.last_revision = rev;
                proof {
                    assert(changes_view(ws@[i as int].1.queue@) =~= changes_view(before[i as int].1.queue@).push(change@));
                    assert(ws@[i as int].0 == before[i as int].0);
                    assert(ws@[i as int].1.pattern == before[i as int].1.pattern);
                    assert(ws@[i as int].1.last_revision == change@.revision());
                    assert(match_change(change@, start[i as int].1.pattern));
                    assert(ws@[i as int].1@ == notify(start[i as int].1, change@));
                    assert(watchers_view(ws@)[i as int] == (start[i as int].0, notify(start[i as int].1, change@)));
                    assert forall|j: int| 0 <= j < ws@.len() && j != i implies ws@[j] == before[j] by {}
                    assert forall|j: int| 0 <= j < ws@.len() && j != i implies #[trigger] watchers_view(ws@)[j]
                        == watchers_view(before)[j] by {
                        assert(ws@[j] == before[j]);
                    }
                }
            } else {
                proof {
                    assert(watchers_view(ws@)[i as int] == start[i as int]);
                    assert(watchers_view(ws@)[i as int] == (start[i as int].0, notify(start[i as int].1, change@)));
                }
            }
            i = i + 1;
        }
        proof {
            assert(watchers_view(ws@) =~= notify_all(start, change@));
        }
        self.watchers = ws;
    }

    fn sort_changes(v: Vec<GraphChange>) -> (r: Vec<GraphChange>)
        ensures
            changes_view(r@) == sort_by_revision(changes_view(v@)),
    {
        let ghost cv = changes_view(v@);
        let mut out: Vec<GraphChange> = Vec::new();
        let mut i: usize = 0;
        while i < v.len()
            invariant
                i <= v@.len(),
                cv == changes_view(v@),
                changes_view(out@) == sort_by_revision(cv.take(i as int)),
            decreases v@.len() - i,
        {
            let c = v[i].copy();
            let rev = c.revision();
            let ghost so = changes_view(out@);
            let mut j: usize = 0;
            while j < out.len() && out[j].revision() <= rev
                invariant
                    j <= out@.len(),
                    so == changes_view(out@),
                    forall|k: int| 0 <= k < j ==> so[k].revision() <= rev,
                decreases out@.len() - j,
            {
                j = j + 1;
            }
            proof {
                lemma_insert_by_revision(so, c@, j as int);
                assert(cv.take(i + 1).drop_last() =~= cv.take(i as int));
                assert(cv.take(i + 1).last() == c@);
            }
            out.insert(j, c);
            proof {
                assert(changes_view(out@) =~= so.insert(j as int, c@));
            }
            i = i + 1;
        }
        proof {
            assert(cv.take(i as int) =~= cv);
        }
        out
    }

    fn poll(&mut self, watch_id: u64, max_events: Option<u32>) -> (r: AbiResponse)
        requires
            old(self).wf(),
        ensures
            final(self).wf(),
            (final(self)@, r@) == spec_poll(old(self)@, watch_id, max_events),
    {
        let ghost h = self@;
        let idx = match alist_find(&self.watchers, watch_id) {
            Some(i) => i,
            None => {
                proof {
                    lemma_alist_at(h.watchers, watch_id, arbitrary(), self.watchers@.len() as int);
                }
                let r = AbiResponse::WatchEvents {
                    events: GraphWatchBatch { from_revision: 0, latest_revision: 0, changes: Vec::new() },
                };
                proof {
                    assert(changes_view(Seq::<GraphChange>::empty()) =~= Seq::<ChangeView>::empty());
                }
                return r;
            },
        };
        let ghost w = h.watchers[idx as int].1;
        let last_revision = self.watchers[idx].1.last_revision;
        let things = self.store.get(&GraphGetRequest::Pattern(self.watchers[idx].1.pattern.copy()));
        let mut combined: Vec<GraphChange> = Vec::new();
        std::mem::swap(&mut combined, &mut self.watchers[idx].1.queue);
        let ghost q0 = changes_view(combined@);
        let ghost tv = things_view(things@);
        let ghost fresh = tv.filter(|t: ThingView| t.revision > last_revision);
        let mut k: usize = 0;
        while k < things.len()
            invariant
                k <= things@.len(),
                tv == things_view(things@),
                fresh == tv.filter(|t: ThingView| t.revision > last_revision),
                changes_view(combined@) == q0 + tv.take(k as int).filter(|t: ThingView| t.revision > last_revision).map_values(
                    |t: ThingView| ChangeView::Thing(t),
                ),
            decreases things@.len() - k,
        {
            proof {
                assert(tv.take(k + 1) =~= tv.take(k as int).push(tv[k as int]));
                tv.take(k as int).lemma_filter_push(tv[k as int], |t: ThingView| t.revision > last_revision);
            }
            if things[k].revision > last_revision {
                let c = GraphChange::Thing(things[k].copy());
                let ghost before = changes_view(combined@);
                combined.push(c);
                proof {
                    assert(changes_view(combined@) =~= before.push(c@));
                }
            }
            proof {
                let f = tv.take(k as int).filter(|t: ThingView| t.revision > last_revision);
                let f2 = tv.take(k + 1).filter(|t: ThingView| t.revision > last_revision);
                if tv[k as int].revision > last_revision {
                    assert(f2.map_values(|t: ThingView| ChangeView::Thing(t)) =~= f.map_values(|t: ThingView| ChangeView::Thing(t)).push(ChangeView::Thing(tv[k as int])));
                } else {
                    assert(f2 == f);
                }
            }
            k = k + 1;
        }
        proof {
            assert(tv.take(k as int) =~= tv);
        }
        let mut sorted = HostRuntime::sort_changes(combined);
        let ghost q = changes_view(sorted@);
        let mut latest = last_revision;
        let mut m: usize = 0;
        while m < sorted.len()
            invariant
                m <= sorted@.len(),
                q == changes_view(sorted@),
                latest == max_revision(q.take(m as int), last_revision),
            decreases sorted@.len() - m,
        {
            let r = sorted[m].revision();
            proof {
                assert(q.take(m + 1).drop_last() =~= q.take(m as int));
                assert(q.take(m + 1).last() == q[m as int]);
            }
            if r > latest {
                latest = r;
            }
            m = m + 1;
        }
        proof {
            assert(q.take(m as int) =~= q);
        }
        let len = sorted.len();
        let n: usize = match max_events {
            Some(c) => if (c as usize) < len {
                c as usize
            } else {
                len
            },
            None => len,
        };
        let rest = sorted.split_off(n);
        proof {
            assert(changes_view(rest@) =~= q.subrange(n as int, q.len() as int));
            assert(changes_view(sorted@) =~= q.subrange(0, n as int));
        }
        let ghost before_w = self.watchers@;
        self.watchers[idx].1.queue = rest;
        self.watchers[idx].1.last_revision = latest;
        proof {
            let w2 = WatchView { pattern: w.pattern, queue: q.subrange(n as int, q.len() as int), last_revision: latest };
            lemma_alist_at(h.watchers, watch_id, w2, idx as int);
            lemma_alist_put_unique(h.watchers, watch_id, w2);
            assert(watchers_view(self.watchers@) =~= h.watchers.update(idx as int, (watch_id, w2)));
            assert(fresh.map_values(|t: ThingView| ChangeView::Thing(t)) == crate::host::fresh_changes(h.store, w));
        }
        AbiResponse::WatchEvents {
            events: GraphWatchBatch { from_revision: last_revision, latest_revision: latest, changes: sorted },
        }
    }

    fn dev_read(&mut self, handle: u64, len: usize) -> (r: AbiResponse)
        requires
            old(self).wf(),
        ensures
            final(self).wf(),
            (final(self)@, r@) == spec_dev_read(old(self)@, handle, len),
    {
        let ghost h = self@;
        match alist_find(&self.open_devices, handle) {
            None => {
                proof {
                    lemma_alist_at(h.devices, handle, arbitrary(), self.open_devices@.len() as int);
                }
                AbiResponse::DevRead { data: Vec::new() }
            },
            Some(i) => {
                proof {
                    lemma_alist_at(h.devices, handle, arbitrary(), i as int);
                }
                let kind = self.open_devices[i].1.0;
                if kind == 1 {
                    let data = take_front(&mut self.keyboard_fifo, len);
                    AbiResponse::DevRead { data }
                } else if kind == 2 {
                    let data = take_front(&mut self.mouse_fifo, len);
                    AbiResponse::DevRead { data }
                } else {
                    AbiResponse::DevRead { data: Vec::new() }
                }
            },
        }
    }

    /// Answer a request.
    pub fn call(&mut self, req: AbiRequest) -> (r: AbiResponse)
        requires
            old(self).wf(),
        ensures
            final(self).wf(),
            (final(self)@, r@) == spec_call(old(self)@, req),
    {
        let ghost h = self@;
        match req {
            AbiRequest::Fiat { id, kind, labels, fields } => {
                let mut labels = labels;
                if labels.len() == 0 {
                    labels.push(kind);
                    proof {
                        assert(labels@.map_values(|s: Symbol| s.0) =~= seq![kind.0]);
                    }
                }
                let thing = self.store.fiat(GraphFiatRequest { id, kind, labels, fields });
                let change = GraphChange::Thing(thing.copy());
                self.push_change(&change);
                AbiResponse::Fiat { thing }
            },
            AbiRequest::Link { id, from, pred, to, props } => {
                let edge = self.store.link(GraphLinkRequest { id, pred, from, to, props });
                let change = GraphChange::Edge(edge.copy());
                self.push_change(&change);
                AbiResponse::Link { edge: Some(edge) }
            },
            AbiRequest::Get { id } => {
                let mut things = self.store.get(&GraphGetRequest::Thing(id));
                if things.len() > 0 {
                    let t = things.remove(0);
                    AbiResponse::Get { thing: Some(t) }
                } else {
                    AbiResponse::Get { thing: None }
                }
            },
            AbiRequest::Query { pattern } => {
                let things = self.store.get(&GraphGetRequest::Pattern(pattern));
                AbiResponse::Query { things }
            },
            AbiRequest::FindByKind { kind, cursor } => {
                let (things, next_cursor) = self.store.find_by_kind(kind.as_str(), cursor);
                AbiResponse::Find { things, next_cursor }
            },
            AbiRequest::WatchRegister { pattern } => {
                let id = self.next_watch;
                self.next_watch = self.next_watch.wrapping_add(1);
                let state = WatchState { pattern, queue: Vec::new(), last_revision: 0 };
                proof {
                    assert(changes_view(state.queue@) =~= Seq::<ChangeView>::empty());
                    lemma_alist_put_unique(h.watchers, id, state@);
                }
                put_watch(&mut self.watchers, id, state);
                AbiResponse::WatchRegistered { watch_id: id }
            },
            AbiRequest::WatchUnregister { watch_id } => {
                proof {
                    lemma_alist_remove(h.watchers, watch_id);
                }
                remove_watch(&mut self.watchers, watch_id);
                AbiResponse::WatchUnregistered
            },
            AbiRequest::WatchPoll { watch_id, max_events } => self.poll(watch_id, max_events),
            AbiRequest::PropsGet { request } => {
                match self.store.props_get(&request) {
                    Some(props) => AbiResponse::Props { props },
                    None => {
                        proof {
                            reveal_strlit("thing not found");
                            assert("thing not found"@ =~= not_found_message());
                        }
                        AbiResponse::Error { message: String::from_str("thing not found") }
                    },
                }
            },
            AbiRequest::PropsSet { request } => {
                match self.store.props_set(request) {
                    Some(thing) => {
                        let change = GraphChange::Thing(thing.copy());
                        self.push_change(&change);
                        AbiResponse::Props { props: thing.fields }
                    },
                    None => {
                        proof {
                            reveal_strlit("thing not found");
                            assert("thing not found"@ =~= not_found_message());
                        }
                        AbiResponse::Error { message: String::from_str("thing not found") }
                    },
                }
            },
            AbiRequest::DevOpen { kind, index } => {
                let handle = self.next_handle;
                self.next_handle = self.next_handle.wrapping_add(1);
                proof {
                    lemma_alist_put_unique(h.devices, handle, (kind, index));
                }
                put_device(&mut self.open_devices, handle, (kind, index));
                AbiResponse::DevOpened { handle: Some(handle) }
            },
            AbiRequest::DevRead { handle, len } => self.dev_read(handle, len),
            AbiRequest::DevWrite { .. } => AbiResponse::DevWritten { len: 0 },
            AbiRequest::IrqBind { .. } => AbiResponse::IrqBound { handle: Some(1) },
            AbiRequest::IrqAck { .. } => AbiResponse::IrqAcked,
            AbiRequest::GrantCapability { .. } => AbiResponse::CapabilityGranted { granted: true },
        }
    }
}

/// Remove and return up to `len` bytes from the front of a queue.
fn take_front(q: &mut Vec<u8>, len: usize) -> (data: Vec<u8>)
    ensures
        (data@, final(q)@) == take_bytes(old(q)@, len),
{
    let n = if len < q.len() {
        len
    } else {
        q.len()
    };
    let mut data = q.split_off(n);
    std::mem::swap(&mut data, q);
    data
}

fn put_watch(v: &mut Vec<(u64, WatchState)>, k: u64, w: WatchState)
    ensures
        watchers_view(final(v)@) == alist_put(watchers_view(old(v)@), k, w@),
{
    let ghost s = watchers_view(v@);
    let ghost wv = w@;
    match alist_find(v, k) {
        Some(i) => {
            proof {
                lemma_alist_at(s, k, wv, i as int);
            }
            v.set(i, (k, w));
            proof {
                assert(watchers_view(v@) =~= s.update(i as int, (k, wv)));
            }
        },
        None => {
            proof {
                lemma_alist_at(s, k, wv, s.len() as int);
            }
            v.push((k, w));
            proof {
                assert(watchers_view(v@) =~= s.push((k, wv)));
            }
        },
    }
}

fn remove_watch(v: &mut Vec<(u64, WatchState)>, k: u64)
    ensures
        watchers_view(final(v)@) == alist_remove(watchers_view(old(v)@), k),
{
    let ghost s = watchers_view(v@);
    let mut old_v: Vec<(u64, WatchState)> = Vec::new();
    std::mem::swap(&mut old_v, v);
    let ghost ov = old_v@;
    let mut kept: Vec<(u64, WatchState)> = Vec::new();
    while old_v.len() > 0
        invariant
            s == watchers_view(ov),
            s.len() == ov.len(),
            old_v@.len() <= ov.len(),
            watchers_view(kept@) == s.take(ov.len() - old_v@.len()).filter(crate::alist::key_is_not::<WatchView>(k)),
            old_v@ == ov.subrange(ov.len() - old_v@.len(), ov.len() as int),
        decreases old_v@.len(),
    {
        let ghost done = ov.len() - old_v@.len();
        let ghost ob = old_v@;
        let item = old_v.remove(0);
        proof {
            assert(ob[0] == ov[done]);
            assert(s[done] == (item.0, item.1@));
            assert(s.take(done + 1) =~= s.take(done).push(s[done]));
            s.take(done).lemma_filter_push(s[done], crate::alist::key_is_not::<WatchView>(k));
            assert(old_v@ =~= ov.subrange(ov.len() - old_v@.len(), ov.len() as int));
        }
        if item.0 != k {
            let ghost before = kept@;
            kept.push(item);
            proof {
                assert(watchers_view(kept@) =~= watchers_view(before).push((item.0, item.1@)));
            }
        }
    }
    proof {
        assert(s.take(ov.len() as int) =~= s);
    }
    *v = kept;
}

fn put_device(v: &mut Vec<(u64, (u32, usize))>, k: u64, d: (u32, usize))
    ensures
        final(v)@ == alist_put(old(v)@, k, d),
{
    let ghost s = v@;
    match alist_find(v, k) {
        Some(i) => {
            proof {
                lemma_alist_at(s, k, d, i as int);
            }
            v.set(i, (k, d));
        },
        None => {
            proof {
                lemma_alist_at(s, k, d, s.len() as int);
            }
            v.push((k, d));
        },
    }
}

} // verus!
