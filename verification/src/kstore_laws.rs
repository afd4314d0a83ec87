//! Laws of the kernel store: the kernel's privileges, what a creator holds
//! over what it creates, what a grant enables and who may grant hardware
//! access, what a read gives back after a write, and what a watch is told.

use vstd::prelude::*;
use crate::abi::{KERNEL_BUNDLE_ID, ValueView};
use crate::alist::alist_get;
use crate::canon::{Symbol, CAN_READ, CAN_WRITE, DST, SRC};
use crate::kstore::{
    KChangeView, KStoreView, KWatchView, bundle_thing, notify_one, push_bounded, spec_can_link, spec_can_read,
    spec_can_write, spec_ensure_bundle, spec_fiat_node, spec_get_props, spec_grant, spec_has_capability,
    spec_has_edge, spec_insert_edge, spec_insert_thing, spec_is_hardware_capability, spec_latest, spec_matches,
    spec_may_grant, spec_owns, spec_set_props, things_wf, versions_of, lemma_insert_thing_wf, spec_query_pattern,
    KEdgeView, WatchQuery,
};
use crate::records::ThingView;

verus! {

/// Every version of a store, and its last edge, came before the next revision.
pub open spec fn revisions_below(s: KStoreView) -> bool {
    &&& forall|i: int| 0 <= i < s.things.len() ==> #[trigger] s.things[i].1.last().revision < s.next_revision
    &&& s.edges.len() > 0 ==> s.edges.last().revision < s.next_revision
}

/// The tail of well-formed Things is well formed.
proof fn lemma_rest_wf(things: Seq<(u128, Seq<ThingView>)>)
    requires
        things_wf(things),
        things.len() > 0,
    ensures
        things_wf(things.drop_first()),
{
    let rest = things.drop_first();
    assert forall|a: int, b: int| 0 <= a < b < rest.len() implies rest[a].0 < rest[b].0 by {
        assert(rest[a] == things[a + 1] && rest[b] == things[b + 1]);
    }
    assert forall|a: int| 0 <= a < rest.len() implies #[trigger] rest[a].1.len() > 0 by {
        assert(rest[a] == things[a + 1]);
    }
    assert forall|a: int, j: int| 0 <= a < rest.len() && 0 <= j < rest[a].1.len() implies #[trigger] rest[a].1[j].id
        == rest[a].0 by {
        assert(rest[a] == things[a + 1]);
    }
}

/// What is found for an id is the versions of some entry filed under it.
proof fn lemma_versions_in(things: Seq<(u128, Seq<ThingView>)>, id: u128)
    ensures
        versions_of(things, id) matches Some(v) ==> exists|i: int| 0 <= i < things.len() && #[trigger] things[i] == (id, v),
    decreases things.len(),
{
    if things.len() > 0 && things[0].0 != id {
        lemma_versions_in(things.drop_first(), id);
        if versions_of(things, id) is Some {
            let v = versions_of(things, id)->0;
            let i = choose|i: int| 0 <= i < things.drop_first().len() && #[trigger] things.drop_first()[i] == (id, v);
            assert(things[i + 1] == (id, v));
        }
    } else if things.len() > 0 {
        assert(things[0] == (id, things[0].1));
    }
}

/// An id below the first of sorted Things is not among them.
proof fn lemma_absent_below(things: Seq<(u128, Seq<ThingView>)>, id: u128)
    requires
        things_wf(things),
        things.len() > 0 ==> id < things[0].0,
    ensures
        versions_of(things, id) is None,
    decreases things.len(),
{
    if things.len() > 0 {
        lemma_rest_wf(things);
        if things.len() > 1 {
            assert(things[0].0 < things[1].0);
            assert(things.drop_first()[0] == things[1]);
        }
        lemma_absent_below(things.drop_first(), id);
    }
}

/// Adding a version leaves the versions of other ids alone, and appends to
/// (or starts) those of its own id when newer than the latest.
proof fn lemma_insert_versions(things: Seq<(u128, Seq<ThingView>)>, t: ThingView, id: u128)
    requires
        things_wf(things),
    ensures
        versions_of(spec_insert_thing(things, t), id) == (if id != t.id {
            versions_of(things, id)
        } else {
            match versions_of(things, id) {
                None => Some(seq![t]),
                Some(v) => if v.len() == 0 || t.revision > v.last().revision {
                    Some(v.push(t))
                } else {
                    Some(v)
                },
            }
        }),
    decreases things.len(),
{
    if things.len() == 0 {
        let n = spec_insert_thing(things, t);
        assert(n.drop_first() =~= Seq::<(u128, Seq<ThingView>)>::empty());
        assert(versions_of(n.drop_first(), id) is None);
    } else if t.id < things[0].0 {
        lemma_absent_below(things, t.id);
        assert((seq![(t.id, seq![t])] + things).drop_first() =~= things);
    } else if t.id == things[0].0 {
        if things[0].1.len() == 0 || t.revision > things[0].1.last().revision {
            assert((seq![(t.id, things[0].1.push(t))] + things.drop_first()).drop_first() =~= things.drop_first());
        }
    } else {
        lemma_rest_wf(things);
        lemma_insert_versions(things.drop_first(), t, id);
        assert((seq![things[0]] + spec_insert_thing(things.drop_first(), t)).drop_first() =~= spec_insert_thing(
            things.drop_first(),
            t,
        ));
    }
}

/// A version newer than the latest of its id becomes the latest.
proof fn lemma_latest_after_insert(s: KStoreView, t: ThingView)
    requires
        things_wf(s.things),
        spec_latest(s, t.id) matches Some(l) ==> l.revision < t.revision,
    ensures
        spec_latest(KStoreView { things: spec_insert_thing(s.things, t), ..s }, t.id) == Some(t),
{
    lemma_insert_versions(s.things, t, t.id);
}

/// The latest version of any id in a store whose revisions are below the
/// next one is below it too.
proof fn lemma_latest_below(s: KStoreView, id: u128)
    requires
        revisions_below(s),
    ensures
        spec_latest(s, id) matches Some(l) ==> l.revision < s.next_revision,
{
    lemma_versions_in(s.things, id);
    if versions_of(s.things, id) is Some {
        let v = versions_of(s.things, id)->0;
        let i = choose|i: int| 0 <= i < s.things.len() && #[trigger] s.things[i] == (id, v);
        assert(s.things[i].1.last().revision < s.next_revision);
    }
}

/// After a bundle's node is ensured, the Things stay well formed and every
/// latest version is below the next revision, which has not gone down.
proof fn lemma_ensure_bundle(s: KStoreView, bundle: u128, id: u128)
    requires
        things_wf(s.things),
        revisions_below(s),
        s.next_revision < u64::MAX,
    ensures
        things_wf(spec_ensure_bundle(s, bundle).things),
        spec_latest(spec_ensure_bundle(s, bundle), id) matches Some(l) ==> l.revision < spec_ensure_bundle(
            s,
            bundle,
        ).next_revision,
        spec_ensure_bundle(s, bundle).next_revision >= s.next_revision,
        spec_ensure_bundle(s, bundle).edges == s.edges,
        spec_ensure_bundle(s, bundle).watches == s.watches,
{
    lemma_latest_below(s, id);
    if versions_of(s.things, bundle) is None {
        let bt = bundle_thing(bundle, s.next_revision);
        lemma_insert_thing_wf(s.things, bt);
        lemma_insert_versions(s.things, bt, id);
    }
}

/// The kernel bundle may read, write and link anything.
pub proof fn lemma_kernel_may_all(s: KStoreView, node: u128, other: u128, kind: u32)
    ensures
        spec_can_read(s, KERNEL_BUNDLE_ID, node),
        spec_can_write(s, KERNEL_BUNDLE_ID, node),
        spec_can_link(s, KERNEL_BUNDLE_ID, node, other, kind),
{
}

/// Whoever may write a node may read it, and an owner may write what it owns.
pub proof fn lemma_owner_writes_writer_reads(s: KStoreView, bundle: u128, node: u128)
    ensures
        spec_owns(s, bundle, node) ==> spec_can_write(s, bundle, node),
        spec_can_write(s, bundle, node) ==> spec_can_read(s, bundle, node),
{
}

/// A created node is the latest version of its id, and its creator owns it,
/// and so may write and read it.
pub proof fn lemma_fiat_creator_owns(
    s: KStoreView,
    owner: u128,
    id: Option<u128>,
    labels: Seq<Symbol>,
    props: Map<u32, ValueView>,
    derived: u128,
    ownership_id: u128,
)
    requires
        things_wf(s.things),
        revisions_below(s),
        s.next_revision < u64::MAX,
    ensures
        ({
            let (s2, t) = spec_fiat_node(s, owner, id, labels, props, derived, ownership_id);
            &&& spec_latest(s2, t.id) == Some(t)
            &&& spec_owns(s2, owner, t.id)
            &&& spec_can_write(s2, owner, t.id)
            &&& spec_can_read(s2, owner, t.id)
        }),
{
    let s1 = spec_ensure_bundle(s, owner);
    let (s2, t) = spec_fiat_node(s, owner, id, labels, props, derived, ownership_id);
    lemma_ensure_bundle(s, owner, t.id);
    lemma_latest_after_insert(s1, t);
    let e = s2.edges.last();
    assert(s2.edges == s1.edges.push(e));
    assert(spec_has_edge(s2.edges, owner, crate::canon::OWNS, t.id)) by {
        assert(s2.edges[s2.edges.len() - 1] == e);
    }
}

/// A grant succeeds exactly when the grantor may grant (the kernel; for a
/// data capability also the target's owner or a holder of the capability),
/// and a refused grant leaves the store as it was.
pub proof fn lemma_grant_decides(s: KStoreView, grantor: u128, grantee: u128, target: u128, capability: u32, edge_id: u128)
    ensures
        spec_grant(s, grantor, grantee, target, capability, edge_id).1 == spec_may_grant(s, grantor, target, capability),
        !spec_grant(s, grantor, grantee, target, capability, edge_id).1 ==> spec_grant(s, grantor, grantee, target, capability, edge_id).0 == s,
{
}

/// After a successful grant the grantee holds the capability on the target
/// (a read or write capability lets it read the target), whenever the new
/// edge is recorded: its revision, the one the store hands out once the
/// grantee's bundle exists, comes after that of the last edge.
pub proof fn lemma_grant_then_holds(s: KStoreView, grantor: u128, grantee: u128, target: u128, capability: u32, edge_id: u128)
    requires
        spec_grant(s, grantor, grantee, target, capability, edge_id).1,
        s.edges.len() > 0 ==> s.edges.last().revision < spec_ensure_bundle(s, grantee).next_revision,
    ensures
        spec_has_capability(spec_grant(s, grantor, grantee, target, capability, edge_id).0, grantee, target, capability),
        capability == CAN_READ || capability == CAN_WRITE ==> spec_can_read(
            spec_grant(s, grantor, grantee, target, capability, edge_id).0,
            grantee,
            target,
        ),
{
    let s1 = spec_ensure_bundle(s, grantee);
    let s2 = spec_grant(s, grantor, grantee, target, capability, edge_id).0;
    assert(s1.edges == s.edges);
    let e = s2.edges.last();
    assert(s2.edges == s1.edges.push(e));
    assert(spec_has_edge(s2.edges, grantee, capability, target)) by {
        assert(s2.edges[s2.edges.len() - 1] == e);
    }
}

/// Only the kernel may grant a hardware capability: any other grantor is
/// refused and the store is left as it was.
pub proof fn lemma_hardware_grants_kernel_only(
    s: KStoreView,
    grantor: u128,
    grantee: u128,
    target: u128,
    capability: u32,
    edge_id: u128,
)
    requires
        spec_is_hardware_capability(capability),
        grantor != KERNEL_BUNDLE_ID,
    ensures
        spec_grant(s, grantor, grantee, target, capability, edge_id) == (s, false),
{
}

/// After properties are merged into a node, reading all its properties
/// gives its former fields overridden by the merged ones.
pub proof fn lemma_get_after_set(s: KStoreView, owner: u128, node: u128, props: Map<u32, ValueView>)
    requires
        things_wf(s.things),
        revisions_below(s),
        spec_set_props(s, owner, node, props).1,
    ensures
        spec_latest(s, node) is Some,
        spec_get_props(spec_set_props(s, owner, node, props).0, owner, node, Seq::<Symbol>::empty()) == Some(
            spec_latest(s, node)->0.fields.union_prefer_right(props),
        ),
{
    let cur = spec_latest(s, node)->0;
    lemma_versions_in(s.things, node);
    let v = versions_of(s.things, node)->0;
    let i = choose|i: int| 0 <= i < s.things.len() && #[trigger] s.things[i] == (node, v);
    assert(s.things[i].1[s.things[i].1.len() - 1].id == s.things[i].0);
    assert(cur.id == node);
    lemma_latest_below(s, node);
    let t = ThingView { fields: cur.fields.union_prefer_right(props), revision: s.next_revision, ..cur };
    lemma_latest_after_insert(s, t);
}

/// The value of a key after every value is transformed.
proof fn lemma_alist_get_map(s: Seq<(u64, KWatchView)>, k: u64, f: spec_fn(KWatchView) -> KWatchView)
    ensures
        alist_get(s.map_values(|p: (u64, KWatchView)| (p.0, f(p.1))), k) == match alist_get(s, k) {
            Some(w) => Some(f(w)),
            None => None,
        },
    decreases s.len(),
{
    if s.len() > 0 && s[0].0 != k {
        lemma_alist_get_map(s.drop_first(), k, f);
        assert(s.map_values(|p: (u64, KWatchView)| (p.0, f(p.1))).drop_first() =~= s.drop_first().map_values(
            |p: (u64, KWatchView)| (p.0, f(p.1)),
        ));
    }
}

/// A watch of the creator whose pattern the new node matches is told of it:
/// the change is queued behind what it held.
pub proof fn lemma_watch_told_of_fiat(
    s: KStoreView,
    owner: u128,
    id: Option<u128>,
    labels: Seq<Symbol>,
    props: Map<u32, ValueView>,
    derived: u128,
    ownership_id: u128,
    wid: u64,
    w: KWatchView,
)
    requires
        things_wf(s.things),
        revisions_below(s),
        s.next_revision < u64::MAX,
        alist_get(s.watches, wid) == Some(w),
        w.owner == owner,
        spec_matches(w.pattern, spec_fiat_node(s, owner, id, labels, props, derived, ownership_id).1, None),
    ensures
        ({
            let (s3, t) = spec_fiat_node(s, owner, id, labels, props, derived, ownership_id);
            alist_get(s3.watches, wid) == Some(KWatchView { queue: push_bounded(w.queue, KChangeView::Thing(t)), ..w })
        }),
{
    let s1 = spec_ensure_bundle(s, owner);
    let (s3, t) = spec_fiat_node(s, owner, id, labels, props, derived, ownership_id);
    lemma_fiat_creator_owns(s, owner, id, labels, props, derived, ownership_id);
    lemma_ensure_bundle(s, owner, t.id);
    let s2 = KStoreView {
        next_revision: s3.next_revision,
        things: s3.things,
        edges: s3.edges,
        ..s1
    };
    let c = KChangeView::Thing(t);
    let f = |x: KWatchView| notify_one(s2, x, c);
    assert(s3.watches =~= s2.watches.map_values(|p: (u64, KWatchView)| (p.0, f(p.1))));
    lemma_alist_get_map(s2.watches, wid, f);
    assert(spec_can_read(s2, owner, t.id));
}

/// A watch registered on a query asks for the query's kind as its one label
/// (none without one), for the query's source under `SRC` and its
/// destination under `DST`, each exactly when the query names it, and for
/// nothing else.
pub proof fn lemma_query_pattern(q: WatchQuery)
    ensures
        spec_query_pattern(q).props.contains_key(SRC) == q.src is Some,
        q.src matches Some(s) ==> spec_query_pattern(q).props[SRC] == ValueView::Uuid(s),
        spec_query_pattern(q).props.contains_key(DST) == q.dst is Some,
        q.dst matches Some(d) ==> spec_query_pattern(q).props[DST] == ValueView::Uuid(d),
        forall|k: u32| #[trigger] spec_query_pattern(q).props.contains_key(k) ==> k == SRC || k == DST,
        spec_query_pattern(q).labels.len() == (if q.kind is Some { 1int } else { 0int }),
        q.kind matches Some(k) ==> spec_query_pattern(q).labels[0] == k.0,
{
}

/// An edge going out of the query's source and into its destination (each
/// where the query names one) meets the pattern of a watch registered on a
/// query without a kind, whatever Thing the change concerns: such an edge
/// is told to the watch.
pub proof fn lemma_query_edge_matches(q: WatchQuery, t: ThingView, e: KEdgeView)
    requires
        q.kind is None,
        q.src is None || q.src == Some(e.src),
        q.dst is None || q.dst == Some(e.dst),
    ensures
        spec_matches(spec_query_pattern(q), t, Some(e)),
{
    let p = spec_query_pattern(q);
    assert forall|k: u32| #[trigger] p.props.contains_key(k) implies crate::kstore::prop_met(t, Some(e), k, p.props[k]) by {
        if k == SRC {
        } else {
            assert(k == DST);
        }
    }
}

} // verus!
