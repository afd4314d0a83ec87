//! Graph-native bundle prototypes. Each bundle manipulates the shared graph
//! through kernel syscalls and never touches hardware directly.

use vstd::prelude::*;
use crate::capgraph::{
    events_not_for, label_chars, BundleId, EdgeId, EdgeView, GraphError, GraphView, NodeId, NodePattern,
    PatternView, PropMap, PropValue, Value, WatchEvent, WatchId, WatchReason,
};
use crate::capgraph_laws::{lemma_creator_owns, lemma_fiat_keeps_nodes};
use crate::kernel::{Kernel, TaskId};

verus! {

/// Minimal context passed to bundle entrypoints.
pub struct BundleContext<'k> {
    pub kernel: &'k mut Kernel,
    pub bundle: BundleId,
    pub task: TaskId,
}

/// A framebuffer driver projects a framebuffer surface into the graph.
pub struct FramebufferDriver {
    framebuffer: Option<NodeId>,
    surface: Option<NodeId>,
}

impl FramebufferDriver {
    /// A driver that has projected nothing yet.
    pub fn new() -> (d: FramebufferDriver)
        ensures
            d.surface() is None,
            d.framebuffer() is None,
    {
        FramebufferDriver { framebuffer: None, surface: None }
    }

    /// The framebuffer node, once initialized.
    pub closed spec fn framebuffer(&self) -> Option<NodeId> {
        self.framebuffer
    }

    /// The surface node, once initialized.
    pub closed spec fn spec_surface(&self) -> Option<NodeId> {
        self.surface
    }

    /// The surface node, once initialized.
    #[verifier::when_used_as_spec(spec_surface)]
    pub fn surface(&self) -> (r: Option<NodeId>)
        ensures
            r == self.spec_surface(),
    {
        self.surface
    }

    /// Create a `Framebuffer` node with `width` and `height`, a `Surface`
    /// node with usage `surface`, and an `OWNS_SURFACE` edge between them.
    pub fn initialize(&mut self, ctx: &mut BundleContext<'_>, width: u64, height: u64) -> (r: Result<
        (NodeId, NodeId),
        GraphError,
    >)
        requires
            old(ctx).kernel.wf(),
            old(ctx).kernel@.graph.nodes.len() + 4 < u64::MAX,
        ensures
            final(ctx).kernel.wf(),
            final(ctx).bundle == old(ctx).bundle,
            final(ctx).task == old(ctx).task,
            final(ctx).kernel@.scheduler == old(ctx).kernel@.scheduler,
            ({
                let b = old(ctx).bundle.0;
                let g0 = old(ctx).kernel@.graph;
                let g1 = g0.fiat(b, set!["Framebuffer"@], framebuffer_props(width, height));
                let g2 = g1.fiat(b, set!["Surface"@], surface_props());
                let fb = g0.nodes.len() as u64;
                let sf = g1.nodes.len() as u64;
                let e = EdgeId(g2.edges.len() as u64);
                &&& r == Ok::<(NodeId, NodeId), GraphError>((NodeId(fb), NodeId(sf)))
                &&& final(self).framebuffer() == Some(NodeId(fb))
                &&& final(self).surface() == Some(NodeId(sf))
                &&& final(ctx).kernel@.graph == g2.add_edge(
                    EdgeView { kind: "OWNS_SURFACE"@, from: fb, to: sf, props: Map::empty(), owner: b },
                ).enqueue(b, fb, WatchReason::EdgeCreated(e)).enqueue(b, sf, WatchReason::EdgeCreated(e))
            }),
    {
        let ghost b = ctx.bundle.0;
        let ghost g0 = ctx.kernel@.graph;
        let mut fb_props = PropMap::new();
        fb_props.insert(String::from_str("width"), Value::U128(width as u128));
        fb_props.insert(String::from_str("height"), Value::U128(height as u128));
        let fb_labels = one_label("Framebuffer");
        let fb = ctx.kernel.syscall_graph_fiat_node(ctx.bundle, fb_labels, fb_props)?;
        let ghost g1 = ctx.kernel@.graph;
        proof {
            assert(fb_props@ =~= framebuffer_props(width, height));
            lemma_creator_owns(g0, b, set!["Framebuffer"@], framebuffer_props(width, height));
            crate::capgraph_laws::lemma_fiat_grows(g0, b, set!["Framebuffer"@], framebuffer_props(width, height));
        }
        let mut surf_props = PropMap::new();
        surf_props.insert(String::from_str("usage"), Value::from_text("surface"));
        let surf_labels = one_label("Surface");
        let surface = ctx.kernel.syscall_graph_fiat_node(ctx.bundle, surf_labels, surf_props)?;
        let ghost g2 = ctx.kernel@.graph;
        proof {
            assert(surf_props@ =~= surface_props());
            lemma_creator_owns(g1, b, set!["Surface"@], surface_props());
            crate::capgraph_laws::lemma_fiat_grows(g1, b, set!["Surface"@], surface_props());
            lemma_fiat_keeps_nodes(g1, b, set!["Surface"@], surface_props(), fb.0 as int);
            assert(g2.owned_by(b, fb.0));
        }
        let _ = ctx.kernel.syscall_graph_link(
            ctx.bundle,
            String::from_str("OWNS_SURFACE"),
            fb,
            surface,
            PropMap::new(),
        )?;
        self.framebuffer = Some(fb);
        self.surface = Some(surface);
        Ok((fb, surface))
    }
}

/// Input driver publishes key events into the graph.
pub struct KeyboardDriver;

impl KeyboardDriver {
    /// Create a `KeyEvent` node whose `key` property is `key`.
    pub fn publish_key(&self, ctx: &mut BundleContext<'_>, key: &str) -> (r: Result<NodeId, GraphError>)
        requires
            old(ctx).kernel.wf(),
        ensures
            final(ctx).kernel.wf(),
            final(ctx).bundle == old(ctx).bundle,
            final(ctx).task == old(ctx).task,
            final(ctx).kernel@.scheduler == old(ctx).kernel@.scheduler,
            r == Ok::<NodeId, GraphError>(NodeId(old(ctx).kernel@.graph.nodes.len() as u64)),
            final(ctx).kernel@.graph == old(ctx).kernel@.graph.fiat(
                old(ctx).bundle.0,
                set!["KeyEvent"@],
                Map::empty().insert("key"@, PropValue::Text(key@)),
            ),
    {
        let mut props = PropMap::new();
        props.insert(String::from_str("key"), Value::from_text(key));
        proof {
            assert(props@ =~= Map::empty().insert("key"@, PropValue::Text(key@)));
        }
        ctx.kernel.syscall_graph_fiat_node(ctx.bundle, one_label("KeyEvent"), props)
    }
}

/// Compositor watches for window + surface nodes and asks the framebuffer
/// driver to compose them; composition is represented by graph writes.
pub struct Compositor {
    watch_id: Option<WatchId>,
    last_frame_edges: Vec<EdgeId>,
}

impl Compositor {
    /// A compositor with no watch and no frames.
    pub fn new() -> (c: Compositor)
        ensures
            c.watch() is None,
            c.frame_edges() == Seq::<EdgeId>::empty(),
    {
        Compositor { watch_id: None, last_frame_edges: Vec::new() }
    }

    /// The surface watch, once registered.
    pub closed spec fn watch(&self) -> Option<WatchId> {
        self.watch_id
    }

    /// The edges of the frame requests published so far.
    pub closed spec fn frame_edges(&self) -> Seq<EdgeId> {
        self.last_frame_edges@
    }

    /// Register a watch for `Surface` nodes.
    pub fn register_surface_watch(&mut self, ctx: &mut BundleContext<'_>) -> (r: Result<(), GraphError>)
        requires
            old(ctx).kernel.wf(),
        ensures
            final(ctx).kernel.wf(),
            final(ctx).bundle == old(ctx).bundle,
            final(ctx).task == old(ctx).task,
            final(ctx).kernel@.scheduler == old(ctx).kernel@.scheduler,
            r is Ok,
            final(self).watch() == Some(WatchId(old(ctx).kernel@.graph.watches.len() as u64)),
            final(self).frame_edges() == old(self).frame_edges(),
            final(ctx).kernel@.graph == (GraphView {
                watches: old(ctx).kernel@.graph.watches.push(
                    (
                        old(ctx).bundle.0,
                        PatternView { labels: set!["Surface"@], props: Map::empty() },
                    ),
                ),
                ..old(ctx).kernel@.graph
            }),
    {
        let pattern = NodePattern::new().with_label("Surface");
        proof {
            assert(pattern@.labels =~= set!["Surface"@]);
        }
        let watch_id = ctx.kernel.syscall_watch_register(ctx.bundle, pattern)?;
        self.watch_id = Some(watch_id);
        Ok(())
    }

    /// Take the events queued for the compositor's bundle.
    pub fn poll(&mut self, ctx: &mut BundleContext<'_>) -> (r: Vec<WatchEvent>)
        requires
            old(ctx).kernel.wf(),
        ensures
            final(ctx).kernel.wf(),
            final(ctx).bundle == old(ctx).bundle,
            final(ctx).task == old(ctx).task,
            final(ctx).kernel@.scheduler == old(ctx).kernel@.scheduler,
            r@ == old(ctx).kernel@.graph.queue_of(old(ctx).bundle.0),
            final(ctx).kernel@.graph == (GraphView {
                events: events_not_for(old(ctx).kernel@.graph.events, old(ctx).bundle.0),
                ..old(ctx).kernel@.graph
            }),
    {
        ctx.kernel.syscall_watch_poll(ctx.bundle)
    }

    /// Link `target_fb` to `surface` with a `COMPOSES` edge whose `kind`
    /// property is `HAS_SURFACE`, and remember the edge.
    pub fn publish_frame_request(
        &mut self,
        ctx: &mut BundleContext<'_>,
        target_fb: NodeId,
        surface: NodeId,
    ) -> (r: Result<EdgeId, GraphError>)
        requires
            old(ctx).kernel.wf(),
        ensures
            final(ctx).kernel.wf(),
            final(ctx).bundle == old(ctx).bundle,
            final(ctx).task == old(ctx).task,
            final(ctx).kernel@.scheduler == old(ctx).kernel@.scheduler,
            ({
                let g = old(ctx).kernel@.graph;
                let b = old(ctx).bundle.0;
                let props = Map::empty().insert("kind"@, PropValue::Text("HAS_SURFACE"@));
                match g.link_refusal(b, "COMPOSES"@, target_fb.0, surface.0) {
                    Some(e) => {
                        &&& r == Err::<EdgeId, GraphError>(e)
                        &&& final(ctx).kernel@.graph == g
                        &&& final(self).frame_edges() == old(self).frame_edges()
                    },
                    None => {
                        let id = EdgeId(g.edges.len() as u64);
                        &&& r == Ok::<EdgeId, GraphError>(id)
                        &&& final(self).frame_edges() == old(self).frame_edges().push(id)
                        &&& final(ctx).kernel@.graph == g.add_edge(
                            EdgeView {
                                kind: "COMPOSES"@,
                                from: target_fb.0,
                                to: surface.0,
                                props,
                                owner: b,
                            },
                        ).enqueue(b, target_fb.0, WatchReason::EdgeCreated(id)).enqueue(
                            b,
                            surface.0,
                            WatchReason::EdgeCreated(id),
                        )
                    },
                }
            }),
            final(self).watch() == old(self).watch(),
    {
        let mut props = PropMap::new();
        props.insert(String::from_str("kind"), Value::from_text("HAS_SURFACE"));
        proof {
            assert(props@ =~= Map::empty().insert("kind"@, PropValue::Text("HAS_SURFACE"@)));
        }
        let edge = ctx.kernel.syscall_graph_link(
            ctx.bundle,
            String::from_str("COMPOSES"),
            target_fb,
            surface,
            props,
        )?;
        self.last_frame_edges.push(edge);
        Ok(edge)
    }
}

/// The properties of a framebuffer node.
pub open spec fn framebuffer_props(width: u64, height: u64) -> Map<Seq<char>, PropValue> {
    Map::empty().insert("width"@, PropValue::U128(width as u128)).insert(
        "height"@,
        PropValue::U128(height as u128),
    )
}

/// The properties of a surface node.
pub open spec fn surface_props() -> Map<Seq<char>, PropValue> {
    Map::empty().insert("usage"@, PropValue::Text("surface"@))
}

/// A label list of one label.
pub fn one_label(label: &str) -> (v: Vec<String>)
    ensures
        v@.len() == 1,
        v@[0]@ == label@,
        label_chars(v@).to_set() == set![label@],
{
    let mut v: Vec<String> = Vec::new();
    v.push(String::from_str(label));
    proof {
        assert(label_chars(v@) =~= seq![label@]);
        assert(seq![label@][0] == label@);
        assert(seq![label@].to_set() =~= set![label@]);
    }
    v
}

} // verus!
