//! Laws of the capability graph, stated over the transitions that the
//! graph operations are specified by.

use vstd::prelude::*;
use crate::capgraph::{
    events_for, events_not_for, node_matches, EdgeView, GraphError, GraphView, NodeId, NodeView,
    PatternView, PropValue, WatchEvent, WatchId, WatchReason,
};

verus! {

/// The events of two stretches of the queue are those of each, in order.
pub proof fn lemma_events_for_append(a: Seq<(u64, WatchEvent)>, b: Seq<(u64, WatchEvent)>, x: u64)
    ensures
        events_for(a + b, x) == events_for(a, x) + events_for(b, x),
    decreases b.len(),
{
    if b.len() == 0 {
        assert(a + b =~= a);
        assert(events_for(a, x) + events_for(b, x) =~= events_for(a, x));
    } else {
        lemma_events_for_append(a, b.drop_last(), x);
        assert((a + b).drop_last() =~= a + b.drop_last());
        assert((a + b).last() == b.last());
        if b.last().0 == x {
            assert(events_for(a, x) + events_for(b, x) =~= (events_for(a, x) + events_for(
                b.drop_last(),
                x,
            )).push(b.last().1));
        } else {
            assert(events_for(a, x) + events_for(b, x) =~= events_for(a, x) + events_for(
                b.drop_last(),
                x,
            ));
        }
    }
}

/// A watch that fires for a change leaves its event among those raised.
proof fn lemma_fired_contains(g: GraphView, n: int, w: int, bundle: u64, node: u64, reason: WatchReason)
    requires
        0 <= w < n <= g.watches.len(),
        g.fires(g.watches[w].0, g.watches[w].1, bundle, node),
    ensures
        events_for(g.fired_upto(n, bundle, node, reason), g.watches[w].0).contains(
            WatchEvent { watch_id: WatchId(w as u64), node_id: NodeId(node), reason },
        ),
    decreases n,
{
    let o = g.watches[w].0;
    let ev = WatchEvent { watch_id: WatchId(w as u64), node_id: NodeId(node), reason };
    let prev = g.fired_upto(n - 1, bundle, node, reason);
    if w == n - 1 {
        assert(g.fired_upto(n, bundle, node, reason) == prev.push((o, ev)));
        assert(prev.push((o, ev)).drop_last() =~= prev);
        assert(events_for(prev.push((o, ev)), o) == events_for(prev, o).push(ev));
        assert(events_for(prev, o).push(ev)[events_for(prev, o).len() as int] == ev);
    } else {
        lemma_fired_contains(g, n - 1, w, bundle, node, reason);
        let cur = g.fired_upto(n, bundle, node, reason);
        if cur != prev {
            let last = cur.last();
            assert(cur.drop_last() =~= prev);
            if last.0 == o {
                let s = events_for(prev, o);
                let i = choose|i: int| 0 <= i < s.len() && s[i] == ev;
                assert(events_for(cur, o)[i] == ev);
            }
        }
    }
}

/// Every event that watches raise for a change is for a bundle that made
/// the change or may read the node: watches obey visibility.
pub proof fn lemma_fired_visible(g: GraphView, n: int, bundle: u64, node: u64, reason: WatchReason, i: int)
    requires
        0 <= n <= g.watches.len(),
        0 <= i < g.fired_upto(n, bundle, node, reason).len(),
    ensures
        ({
            let e = g.fired_upto(n, bundle, node, reason)[i];
            &&& e.1.node_id == NodeId(node)
            &&& e.1.reason == reason
            &&& node < g.nodes.len()
            &&& e.0 == bundle || g.can_read(e.0, node)
        }),
    decreases n,
{
    let prev = g.fired_upto(n - 1, bundle, node, reason);
    if i < prev.len() {
        lemma_fired_visible(g, n - 1, bundle, node, reason, i);
        let cur = g.fired_upto(n, bundle, node, reason);
        assert(cur[i] == prev[i]);
    }
}

/// A bundle owns the nodes it creates.
pub proof fn lemma_creator_owns(
    g: GraphView,
    bundle: u64,
    labels: Set<Seq<char>>,
    props: Map<Seq<char>, PropValue>,
)
    requires
        g.nodes.len() < u64::MAX,
    ensures
        ({
            let post = g.fiat(bundle, labels, props);
            let id = g.nodes.len() as u64;
            &&& id < post.nodes.len()
            &&& post.nodes[id as int] == NodeView { owner: bundle, labels, props }
            &&& post.owned_by(bundle, id)
        }),
{
    let id = g.nodes.len();
    let g1 = g.add_node(NodeView { owner: bundle, labels, props });
    let (g2, bn) = g1.ensure_bundle(bundle, None);
    assert(g2.nodes[id as int] == g1.nodes[id as int]);
}

/// Creating a node leaves every other node as it was.
pub proof fn lemma_fiat_keeps_nodes(
    g: GraphView,
    bundle: u64,
    labels: Set<Seq<char>>,
    props: Map<Seq<char>, PropValue>,
    i: int,
)
    requires
        0 <= i < g.nodes.len(),
    ensures
        g.fiat(bundle, labels, props).nodes[i] == g.nodes[i],
{
    let g1 = g.add_node(NodeView { owner: bundle, labels, props });
    let (g2, bn) = g1.ensure_bundle(bundle, None);
    assert(g1.nodes[i] == g.nodes[i]);
    assert(g2.nodes[i] == g1.nodes[i]);
}

/// A bundle that owns neither endpoint and holds no `CAN_LINK` edge for
/// the link is refused with `Forbidden`.
pub proof fn lemma_link_without_rights_forbidden(g: GraphView, b: u64, kind: Seq<char>, from: u64, to: u64)
    requires
        from < g.nodes.len(),
        to < g.nodes.len(),
        !g.owned_by(b, from),
        !g.owned_by(b, to),
        !g.can_link(b, kind, from, to),
    ensures
        g.link_refusal(b, kind, from, to) == Some(GraphError::Forbidden),
{
}

/// A bundle may link into or out of a node it owns.
pub proof fn lemma_link_owned_allowed(g: GraphView, b: u64, kind: Seq<char>, from: u64, to: u64)
    requires
        from < g.nodes.len(),
        to < g.nodes.len(),
        g.owned_by(b, from) || g.owned_by(b, to),
    ensures
        g.link_refusal(b, kind, from, to) is None,
{
}

/// A bundle that neither owns a node nor holds `CAN_WRITE` for it may not
/// set its properties.
pub proof fn lemma_write_without_rights_forbidden(g: GraphView, b: u64, node: u64)
    requires
        node < g.nodes.len(),
        !g.owned_by(b, node),
        !g.can_write(b, node),
    ensures
        g.write_refusal(b, node) == Some(GraphError::Forbidden),
{
}

/// A bundle that owns a node may set its properties, and a read of them
/// afterwards gives the written values.
pub proof fn lemma_owner_writes_then_reads(
    g: GraphView,
    b: u64,
    node: u64,
    props: Map<Seq<char>, PropValue>,
    k: Seq<char>,
)
    requires
        node < g.nodes.len(),
        g.owned_by(b, node),
        props.contains_key(k),
    ensures
        g.write_refusal(b, node) is None,
        g.set_node_props(node, props).enqueue(b, node, WatchReason::PropertiesChanged).nodes[node as int].props[k]
            == props[k],
{
}

/// A watch of `bundle` whose pattern the new node matches reports its
/// creation to `bundle`.
pub proof fn lemma_watch_fires_on_creation(
    g: GraphView,
    bundle: u64,
    labels: Set<Seq<char>>,
    props: Map<Seq<char>, PropValue>,
    w: int,
)
    requires
        g.nodes.len() < u64::MAX,
        0 <= w < g.watches.len(),
        g.watches[w].0 == bundle,
        node_matches(NodeView { owner: bundle, labels, props }, g.watches[w].1),
    ensures
        g.fiat(bundle, labels, props).queue_of(bundle).contains(
            WatchEvent {
                watch_id: WatchId(w as u64),
                node_id: NodeId(g.nodes.len() as u64),
                reason: WatchReason::NodeCreated,
            },
        ),
{
    let id = g.nodes.len() as u64;
    let g1 = g.add_node(NodeView { owner: bundle, labels, props });
    let (g2, bn) = g1.ensure_bundle(bundle, None);
    let g3 = g2.add_edge(
        EdgeView { kind: "owns"@, from: bn, to: id, props: Map::empty(), owner: bundle },
    );
    assert(g3.nodes[id as int] == NodeView { owner: bundle, labels, props });
    assert(g3.watches == g.watches);
    let n = g3.watches.len() as int;
    lemma_fired_contains(g3, n, w, bundle, id, WatchReason::NodeCreated);
    let fired = g3.fired_upto(n, bundle, id, WatchReason::NodeCreated);
    lemma_events_for_append(g3.events, fired, bundle);
    let ev = WatchEvent { watch_id: WatchId(w as u64), node_id: NodeId(id), reason: WatchReason::NodeCreated };
    let s = events_for(fired, bundle);
    let i = choose|i: int| 0 <= i < s.len() && s[i] == ev;
    assert((events_for(g3.events, bundle) + s)[events_for(g3.events, bundle).len() + i] == ev);
}

/// A watch of the writing bundle whose pattern the updated node matches
/// reports the property change.
pub proof fn lemma_watch_fires_on_update(
    g: GraphView,
    bundle: u64,
    node: u64,
    props: Map<Seq<char>, PropValue>,
    w: int,
)
    requires
        node < g.nodes.len(),
        0 <= w < g.watches.len(),
        g.watches[w].0 == bundle,
        node_matches(g.set_node_props(node, props).nodes[node as int], g.watches[w].1),
    ensures
        g.set_node_props(node, props).enqueue(bundle, node, WatchReason::PropertiesChanged).queue_of(
            bundle,
        ).contains(
            WatchEvent {
                watch_id: WatchId(w as u64),
                node_id: NodeId(node),
                reason: WatchReason::PropertiesChanged,
            },
        ),
{
    let g1 = g.set_node_props(node, props);
    let n = g1.watches.len() as int;
    lemma_fired_contains(g1, n, w, bundle, node, WatchReason::PropertiesChanged);
    let fired = g1.fired_upto(n, bundle, node, WatchReason::PropertiesChanged);
    lemma_events_for_append(g1.events, fired, bundle);
    let ev = WatchEvent {
        watch_id: WatchId(w as u64),
        node_id: NodeId(node),
        reason: WatchReason::PropertiesChanged,
    };
    let s = events_for(fired, bundle);
    let i = choose|i: int| 0 <= i < s.len() && s[i] == ev;
    assert((events_for(g1.events, bundle) + s)[events_for(g1.events, bundle).len() + i] == ev);
}

/// After a bundle polls, nothing is left queued for it.
pub proof fn lemma_poll_drains(evs: Seq<(u64, WatchEvent)>, b: u64)
    ensures
        events_for(events_not_for(evs, b), b) == Seq::<WatchEvent>::empty(),
    decreases evs.len(),
{
    if evs.len() > 0 {
        lemma_poll_drains(evs.drop_last(), b);
        let prev = events_not_for(evs.drop_last(), b);
        if evs.last().0 != b {
            assert(prev.push(evs.last()).drop_last() =~= prev);
        }
    }
    assert(events_for(events_not_for(evs, b), b) =~= Seq::<WatchEvent>::empty());
}

/// Polling leaves other bundles' queues as they were.
pub proof fn lemma_poll_keeps_others(evs: Seq<(u64, WatchEvent)>, b: u64, other: u64)
    requires
        other != b,
    ensures
        events_for(events_not_for(evs, b), other) == events_for(evs, other),
    decreases evs.len(),
{
    if evs.len() > 0 {
        lemma_poll_keeps_others(evs.drop_last(), b, other);
        let prev = events_not_for(evs.drop_last(), b);
        if evs.last().0 != b {
            assert(prev.push(evs.last()).drop_last() =~= prev);
        }
    }
}

/// Granting `CAN_READ` on a node lets the grantee read it; granting
/// `CAN_WRITE` lets it write it.
pub proof fn lemma_grant_enables(
    g: GraphView,
    issuer: u64,
    grantee: u64,
    kind: Seq<char>,
    resource: u64,
    props: Map<Seq<char>, PropValue>,
    target: u64,
)
    requires
        resource < g.nodes.len(),
    ensures
        ({
            let (g2, bn) = g.ensure_bundle(grantee, None);
            let post = g2.add_edge(
                EdgeView {
                    kind,
                    from: bn,
                    to: resource,
                    props: GraphView::grant_props(kind, props, target),
                    owner: issuer,
                },
            );
            &&& kind == "CAN_READ"@ ==> post.can_read(grantee, resource)
            &&& kind == "CAN_WRITE"@ ==> post.can_write(grantee, resource)
        }),
{
    let (g2, bn) = g.ensure_bundle(grantee, None);
    let e = EdgeView {
        kind,
        from: bn,
        to: resource,
        props: GraphView::grant_props(kind, props, target),
        owner: issuer,
    };
    let post = g2.add_edge(e);
    assert(post.edges[post.edges.len() - 1] == e);
    assert(post.bundle_nodes.contains_key(grantee));
}

/// Granting `CAN_LINK` with a `kind` property and no explicit `target`
/// lets the grantee link that kind from the resource to the link target.
pub proof fn lemma_grant_link_enables(
    g: GraphView,
    issuer: u64,
    grantee: u64,
    resource: u64,
    props: Map<Seq<char>, PropValue>,
    link_kind: Seq<char>,
    target: u64,
)
    requires
        props.contains_key("kind"@),
        props["kind"@] == PropValue::Text(link_kind),
        !props.contains_key("target"@),
    ensures
        ({
            let (g2, bn) = g.ensure_bundle(grantee, None);
            let post = g2.add_edge(
                EdgeView {
                    kind: "CAN_LINK"@,
                    from: bn,
                    to: resource,
                    props: GraphView::grant_props("CAN_LINK"@, props, target),
                    owner: issuer,
                },
            );
            post.can_link(grantee, link_kind, resource, target)
        }),
{
    let (g2, bn) = g.ensure_bundle(grantee, None);
    let e = EdgeView {
        kind: "CAN_LINK"@,
        from: bn,
        to: resource,
        props: GraphView::grant_props("CAN_LINK"@, props, target),
        owner: issuer,
    };
    let post = g2.add_edge(e);
    reveal_strlit("kind");
    reveal_strlit("target");
    assert(post.edges[post.edges.len() - 1] == e);
    assert(post.bundle_nodes.contains_key(grantee));
    assert(crate::capgraph::link_allows(e, bn, link_kind, resource, target));
}

} // verus!

verus! {

/// Creating a node adds it and possibly the creator's bundle node: the
/// graph grows by one or two nodes and one edge, and keeps its watches.
pub proof fn lemma_fiat_grows(
    g: GraphView,
    bundle: u64,
    labels: Set<Seq<char>>,
    props: Map<Seq<char>, PropValue>,
)
    ensures
        ({
            let post = g.fiat(bundle, labels, props);
            &&& post.nodes.len() == g.nodes.len() + 1 || post.nodes.len() == g.nodes.len() + 2
            &&& post.edges.len() == g.edges.len() + 1
            &&& post.watches == g.watches
            &&& g.bundle_nodes.contains_key(bundle) ==> post.nodes.len() == g.nodes.len() + 1
        }),
{
}

} // verus!
