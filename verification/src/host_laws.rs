//! Laws of the host runtime: what a read gives back after a write, what a
//! watch is told, and what unregistering and the device queues do.

use vstd::prelude::*;
use crate::abi::{SymbolMap, ValueView};
use crate::alist::{alist_get, alist_remove, alist_unique, lemma_alist_remove};
use crate::canon::Symbol;
use crate::host::{
    HostRuntime, HostView, host_wf, WatchView, match_change, spec_symbol_name, no_events, notify, notify_all, spec_call,
    spec_dev_read, take_bytes,
};
use crate::host_store::{
    find_thing, id_is, ids_increasing, pattern_matches, store_fiat, store_props_set, upsert_thing,
};
use crate::records::{AbiRequest, ChangeView, EdgeView, GraphPropsGetRequest, GraphPropsRequest, ResponseView, ThingView};

verus! {

broadcast use vstd::seq_lib::group_filter_ensures;

/// Filtering by an id no element has gives nothing.
proof fn lemma_filter_absent(s: Seq<ThingView>, k: u128)
    requires
        forall|i: int| 0 <= i < s.len() ==> s[i].id != k,
    ensures
        s.filter(id_is(k)) == Seq::<ThingView>::empty(),
    decreases s.len(),
{
    reveal(Seq::filter);
    if s.len() > 0 {
        lemma_filter_absent(s.drop_last(), k);
    }
}

/// After an upsert into a sorted sequence, the only element with the new
/// Thing's id is that Thing, and it is what a lookup finds.
proof fn lemma_upsert_lookup(s: Seq<ThingView>, t: ThingView)
    requires
        ids_increasing(s),
    ensures
        upsert_thing(s, t).filter(id_is(t.id)) == seq![t],
        find_thing(upsert_thing(s, t), t.id) == Some(t),
    decreases s.len(),
{
    if s.len() == 0 {
        seq![t].lemma_filter_prepend(t, id_is(t.id));
        assert(Seq::<ThingView>::empty().filter(id_is(t.id)) =~= Seq::<ThingView>::empty()) by {
            reveal(Seq::filter);
        }
        assert(seq![t] == seq![t] + Seq::<ThingView>::empty());
        Seq::<ThingView>::empty().lemma_filter_prepend(t, id_is(t.id));
    } else if t.id < s[0].id {
        lemma_filter_absent(s, t.id);
        s.lemma_filter_prepend(t, id_is(t.id));
        assert(seq![t] + Seq::<ThingView>::empty() =~= seq![t]);
    } else if t.id == s[0].id {
        let r = s.drop_first();
        assert forall|i: int| 0 <= i < r.len() implies r[i].id != t.id by {
            assert(s[0].id < s[i + 1].id);
        }
        lemma_filter_absent(r, t.id);
        r.lemma_filter_prepend(t, id_is(t.id));
        assert(seq![t] + Seq::<ThingView>::empty() =~= seq![t]);
    } else {
        let r = s.drop_first();
        assert(ids_increasing(r)) by {
            assert forall|i: int, j: int| 0 <= i < j < r.len() implies r[i].id < r[j].id by {
                assert(r[i] == s[i + 1] && r[j] == s[j + 1]);
            }
        }
        lemma_upsert_lookup(r, t);
        upsert_thing(r, t).lemma_filter_prepend(s[0], id_is(t.id));
        assert(Seq::<ThingView>::empty() + seq![t] =~= seq![t]);
        assert((seq![s[0]] + upsert_thing(r, t)).drop_first() =~= upsert_thing(r, t));
    }
}

/// A Thing created by fiat is what a lookup of its id then returns.
pub proof fn lemma_get_after_fiat(
    h: HostView,
    id: Option<u128>,
    kind: Symbol,
    labels: Vec<Symbol>,
    fields: SymbolMap,
)
    requires
        host_wf(h),
    ensures
        ({
            let (h1, r1) = spec_call(h, AbiRequest::Fiat { id, kind, labels, fields });
            match r1 {
                ResponseView::Fiat { thing } => spec_call(h1, AbiRequest::Get { id: thing.id }).1
                    == ResponseView::Get { thing: Some(thing) },
                _ => false,
            }
        }),
{
    let ls = if labels@.len() == 0 {
        seq![kind.0]
    } else {
        labels@.map_values(|s: Symbol| s.0)
    };
    let (st, t) = store_fiat(h.store, id, kind.0, ls, fields@);
    lemma_upsert_lookup(h.store.things, t);
}

/// Properties merged into a Thing are what a full read of its properties
/// then returns: the old ones with the new written over them.
pub proof fn lemma_props_after_set(h: HostView, node: u128, props: SymbolMap, no_keys: Vec<Symbol>)
    requires
        host_wf(h),
        find_thing(h.store.things, node) is Some,
        no_keys@.len() == 0,
    ensures
        ({
            let (h1, r1) = spec_call(h, AbiRequest::PropsSet { request: GraphPropsRequest { node, props } });
            let (h2, r2) = spec_call(
                h1,
                AbiRequest::PropsGet { request: GraphPropsGetRequest { node, keys: no_keys } },
            );
            &&& r1 == ResponseView::Props {
                props: find_thing(h.store.things, node)->0.fields.union_prefer_right(props@),
            }
            &&& r2 == r1
        }),
{
    let t = find_thing(h.store.things, node)->0;
    lemma_find_id(h.store.things, node);
    let t2 = ThingView { fields: t.fields.union_prefer_right(props@), revision: h.store.revision, ..t };
    lemma_upsert_lookup(h.store.things, t2);
}

/// The Thing found for an id has that id.
proof fn lemma_find_id(s: Seq<ThingView>, k: u128)
    ensures
        find_thing(s, k) matches Some(t) ==> t.id == k,
    decreases s.len(),
{
    if s.len() > 0 {
        lemma_find_id(s.drop_first(), k);
    }
}

/// A watch's entry after every watch is told of a change.
proof fn lemma_notify_get(ws: Seq<(u64, WatchView)>, c: ChangeView, k: u64)
    ensures
        alist_get(notify_all(ws, c), k) == (match alist_get(ws, k) {
            Some(w) => Some(notify(w, c)),
            None => None,
        }),
    decreases ws.len(),
{
    if ws.len() > 0 {
        lemma_notify_get(ws.drop_first(), c, k);
        assert(notify_all(ws, c).drop_first() =~= notify_all(ws.drop_first(), c));
    }
}

/// A Thing created by fiat that matches a registered watch's pattern is
/// queued on that watch, which has then seen its revision.
pub proof fn lemma_watch_sees_fiat(
    h: HostView,
    w: u64,
    id: Option<u128>,
    kind: Symbol,
    labels: Vec<Symbol>,
    fields: SymbolMap,
)
    requires
        host_wf(h),
        alist_get(h.watchers, w) is Some,
    ensures
        ({
            let (h1, r1) = spec_call(h, AbiRequest::Fiat { id, kind, labels, fields });
            let wv = alist_get(h.watchers, w)->0;
            match r1 {
                ResponseView::Fiat { thing } => pattern_matches(thing, wv.pattern) ==> alist_get(h1.watchers, w) == Some(
                    WatchView {
                        queue: wv.queue.push(ChangeView::Thing(thing)),
                        last_revision: thing.revision,
                        ..wv
                    },
                ),
                _ => false,
            }
        }),
{
    let ls = if labels@.len() == 0 {
        seq![kind.0]
    } else {
        labels@.map_values(|s: Symbol| s.0)
    };
    let (st, t) = store_fiat(h.store, id, kind.0, ls, fields@);
    lemma_notify_get(h.watchers, ChangeView::Thing(t), w);
}

/// A watch that was unregistered is polled as an empty batch, and nothing changes.
pub proof fn lemma_poll_after_unregister(h: HostView, w: u64, max_events: Option<u32>)
    requires
        host_wf(h),
    ensures
        ({
            let (h1, r1) = spec_call(h, AbiRequest::WatchUnregister { watch_id: w });
            let (h2, r2) = spec_call(h1, AbiRequest::WatchPoll { watch_id: w, max_events });
            &&& r1 == ResponseView::WatchUnregistered
            &&& r2 == no_events()
            &&& h2 == h1
        }),
{
    lemma_alist_remove(h.watchers, w);
}

/// Bytes queued on the keyboard come out of an open keyboard device first in,
/// first out: a read of `len` bytes returns the oldest `len` of them.
pub proof fn lemma_keyboard_fifo(h: HostView, handle: u64, index: usize, bytes: Seq<u8>, len: usize)
    requires
        alist_get(h.devices, handle) == Some((1u32, index)),
        len <= h.keyboard.len() + bytes.len(),
    ensures
        spec_dev_read((HostView { keyboard: h.keyboard + bytes, ..h }), handle, len).1 == (ResponseView::DevRead {
            data: (h.keyboard + bytes).subrange(0, len as int),
        }),
{
}

/// A watch whose pattern lists labels is told of an edge only when one of
/// them names the edge's predicate: an edge whose predicate no label names
/// leaves the watch as it was, whatever properties the pattern asks for.
pub proof fn lemma_edge_needs_named_label(w: WatchView, e: EdgeView)
    requires
        w.pattern.labels.len() > 0,
        forall|i: int| 0 <= i < w.pattern.labels.len() ==> spec_symbol_name(#[trigger] w.pattern.labels[i]) != Some(e.pred),
    ensures
        notify(w, ChangeView::Edge(e)) == w,
{
}

/// A watch whose pattern asks for no property and has a label naming an
/// edge's predicate is told of that edge: it is queued after what the watch
/// held.
pub proof fn lemma_edge_named_label_told(w: WatchView, e: EdgeView, i: int)
    requires
        0 <= i < w.pattern.labels.len(),
        spec_symbol_name(w.pattern.labels[i]) == Some(e.pred),
        w.pattern.props == Map::<u32, ValueView>::empty(),
    ensures
        notify(w, ChangeView::Edge(e)).queue == w.queue.push(ChangeView::Edge(e)),
{
}

/// A watch whose pattern asks for a property is never told of an edge.
pub proof fn lemma_edge_ignores_property_patterns(w: WatchView, e: EdgeView)
    requires
        w.pattern.props != Map::<u32, ValueView>::empty(),
    ensures
        notify(w, ChangeView::Edge(e)) == w,
{
}

} // verus!
