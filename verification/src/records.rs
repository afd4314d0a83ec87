//! Graph records, requests and responses exchanged over the Thing ABI.

use vstd::prelude::*;
use crate::abi::{SymbolMap, ValueView};
use crate::canon::Symbol;
use crate::symset::SymbolSet;

verus! {

/// Geometry of a framebuffer.
#[derive(Debug, Clone, Copy, PartialEq, Eq, Structural)]
pub struct FramebufferGeometry {
    pub width: u32,
    pub height: u32,
    pub pitch: u32,
    pub bpp: u16,
}

/// Arguments of the find-by-kind system call.
#[derive(Debug, Clone, Copy, PartialEq, Eq, Structural)]
pub struct GraphFindByKind {
    pub kind_ptr: u64,
    pub kind_len: u64,
    pub cursor: u64,
}

/// Header of a find-by-kind reply.
#[derive(Debug, Clone, Copy, PartialEq, Eq, Structural)]
pub struct GraphFindResultHeader {
    pub next_cursor: u64,
    pub count: u32,
}

/// Errors of the system interface.
#[derive(Debug, Clone, Copy, PartialEq, Eq, Structural)]
pub enum SysError {
    Unknown,
    InvalidArgument,
    NotFound,
    AccessDenied,
    OutOfMemory,
    Backend(u32),
}

/// What a Thing denotes.
pub struct ThingView {
    pub id: u128,
    pub kind: u32,
    pub labels: Set<u32>,
    pub fields: Map<u32, ValueView>,
    pub owner: u128,
    pub revision: u64,
}

/// What an edge denotes.
pub struct EdgeView {
    pub id: u128,
    pub src: u128,
    pub pred: Seq<char>,
    pub dst: u128,
    pub props: Map<u32, ValueView>,
    pub owner: u128,
    pub revision: u64,
}

/// What a change denotes.
pub enum ChangeView {
    Thing(ThingView),
    Edge(EdgeView),
}

impl ChangeView {
    /// The revision a change carries.
    pub open spec fn revision(self) -> u64 {
        match self {
            ChangeView::Thing(t) => t.revision,
            ChangeView::Edge(e) => e.revision,
        }
    }
}

/// A Thing: a node of the graph.
#[derive(Debug)]
pub struct GraphThing {
    pub id: u128,
    pub kind: Symbol,
    pub labels: SymbolSet,
    pub fields: SymbolMap,
    pub owner: u128,
    pub revision: u64,
}

impl View for GraphThing {
    type V = ThingView;

    open spec fn view(&self) -> ThingView {
        ThingView {
            id: self.id,
            kind: self.kind.0,
            labels: self.labels@,
            fields: self.fields@,
            owner: self.owner,
            revision: self.revision,
        }
    }
}

impl GraphThing {
    /// A copy of the Thing.
    pub fn copy(&self) -> (t: GraphThing)
        ensures
            t@ == self@,
    {
        GraphThing {
            id: self.id,
            kind: self.kind,
            labels: self.labels.copy(),
            fields: self.fields.copy(),
            owner: self.owner,
            revision: self.revision,
        }
    }
}

/// An edge of the graph.
#[derive(Debug)]
pub struct GraphEdge {
    pub id: u128,
    pub src: u128,
    pub pred: String,
    pub dst: u128,
    pub props: SymbolMap,
    pub owner: u128,
    pub revision: u64,
}

impl View for GraphEdge {
    type V = EdgeView;

    open spec fn view(&self) -> EdgeView {
        EdgeView {
            id: self.id,
            src: self.src,
            pred: self.pred@,
            dst: self.dst,
            props: self.props@,
            owner: self.owner,
            revision: self.revision,
        }
    }
}

impl GraphEdge {
    /// A copy of the edge.
    pub fn copy(&self) -> (e: GraphEdge)
        ensures
            e@ == self@,
    {
        GraphEdge {
            id: self.id,
            src: self.src,
            pred: self.pred.clone(),
            dst: self.dst,
            props: self.props.copy(),
            owner: self.owner,
            revision: self.revision,
        }
    }
}

/// A change to the graph: a Thing written or an edge added.
#[derive(Debug)]
pub enum GraphChange {
    Thing(GraphThing),
    Edge(GraphEdge),
}

impl View for GraphChange {
    type V = ChangeView;

    open spec fn view(&self) -> ChangeView {
        match self {
            GraphChange::Thing(t) => ChangeView::Thing(t@),
            GraphChange::Edge(e) => ChangeView::Edge(e@),
        }
    }
}

impl GraphChange {
    /// The revision the change carries.
    pub fn revision(&self) -> (r: u64)
        ensures
            r == self@.revision(),
    {
        match self {
            GraphChange::Thing(t) => t.revision,
            GraphChange::Edge(e) => e.revision,
        }
    }

    /// A copy of the change.
    pub fn copy(&self) -> (c: GraphChange)
        ensures
            c@ == self@,
    {
        match self {
            GraphChange::Thing(t) => GraphChange::Thing(t.copy()),
            GraphChange::Edge(e) => GraphChange::Edge(e.copy()),
        }
    }
}

/// The views of a sequence of Things.
pub open spec fn things_view(s: Seq<GraphThing>) -> Seq<ThingView> {
    s.map_values(|t: GraphThing| t@)
}

/// The views of a sequence of edges.
pub open spec fn edges_view(s: Seq<GraphEdge>) -> Seq<EdgeView> {
    s.map_values(|e: GraphEdge| e@)
}

/// The views of a sequence of changes.
pub open spec fn changes_view(s: Seq<GraphChange>) -> Seq<ChangeView> {
    s.map_values(|c: GraphChange| c@)
}

/// The whole graph at one revision.
#[derive(Debug)]
pub struct GraphSnapshot {
    pub revision: u64,
    pub thing_count: usize,
    pub edge_count: usize,
    pub things: Vec<GraphThing>,
    pub edges: Vec<GraphEdge>,
}

/// A batch of changes delivered to a watch.
#[derive(Debug)]
pub struct GraphWatchBatch {
    pub from_revision: u64,
    pub latest_revision: u64,
    pub changes: Vec<GraphChange>,
}

/// A request to create or replace a Thing.
#[derive(Debug)]
pub struct GraphFiatRequest {
    pub id: Option<u128>,
    pub kind: Symbol,
    pub labels: Vec<Symbol>,
    pub fields: SymbolMap,
}

/// What a node pattern asks for.
pub struct PatternView {
    pub labels: Seq<u32>,
    pub props: Map<u32, ValueView>,
}

/// Labels and properties a node must have.
#[derive(Debug)]
pub struct NodePattern {
    pub labels: Vec<Symbol>,
    pub props: SymbolMap,
}

impl View for NodePattern {
    type V = PatternView;

    open spec fn view(&self) -> PatternView {
        PatternView { labels: self.labels@.map_values(|s: Symbol| s.0), props: self.props@ }
    }
}

impl NodePattern {
    /// The pattern every node matches.
    pub fn new() -> (p: NodePattern)
        ensures
            p@.labels == Seq::<u32>::empty(),
            p@.props == Map::<u32, ValueView>::empty(),
    {
        let p = NodePattern { labels: Vec::new(), props: SymbolMap::new() };
        assert(p@.labels =~= Seq::<u32>::empty());
        p
    }

    /// A copy of the pattern.
    pub fn copy(&self) -> (p: NodePattern)
        ensures
            p@ == self@,
    {
        NodePattern { labels: self.labels.clone(), props: self.props.copy() }
    }
}

/// A lookup: one Thing by id, or all Things matching a pattern.
#[derive(Debug)]
pub enum GraphGetRequest {
    Thing(u128),
    Pattern(NodePattern),
}

/// A request to add an edge.
#[derive(Debug)]
pub struct GraphLinkRequest {
    pub id: Option<u128>,
    pub pred: String,
    pub from: u128,
    pub to: u128,
    pub props: SymbolMap,
}

/// A request to merge properties into a Thing.
#[derive(Debug)]
pub struct GraphPropsRequest {
    pub node: u128,
    pub props: SymbolMap,
}

/// A request to read properties of a Thing (all of them when `keys` is empty).
#[derive(Debug)]
pub struct GraphPropsGetRequest {
    pub node: u128,
    pub keys: Vec<Symbol>,
}

/// A request to grant a capability on a Thing to a bundle.
#[derive(Debug)]
pub struct GrantCapabilityRequest {
    pub grantee: u128,
    pub target: u128,
    pub capability: String,
}

/// A request made through the Thing runtime.
#[derive(Debug)]
#[allow(inconsistent_fields)]
pub enum AbiRequest {
    Fiat { id: Option<u128>, kind: Symbol, labels: Vec<Symbol>, fields: SymbolMap },
    Link { id: Option<u128>, from: u128, pred: String, to: u128, props: SymbolMap },
    Get { id: u128 },
    Query { pattern: NodePattern },
    FindByKind { kind: String, cursor: Option<u64> },
    WatchRegister { pattern: NodePattern },
    WatchUnregister { watch_id: u64 },
    WatchPoll { watch_id: u64, max_events: Option<u32> },
    PropsGet { request: GraphPropsGetRequest },
    PropsSet { request: GraphPropsRequest },
    GrantCapability { request: GrantCapabilityRequest },
    DevOpen { kind: u32, index: usize },
    DevRead { handle: u64, len: usize },
    DevWrite { handle: u64, data: Vec<u8> },
    IrqBind { device: u128, line: u8 },
    IrqAck { handle: u64 },
}

/// What a response denotes.
#[allow(inconsistent_fields)]
pub enum ResponseView {
    Fiat { thing: ThingView },
    Link { edge: Option<EdgeView> },
    Get { thing: Option<ThingView> },
    Query { things: Seq<ThingView> },
    Find { things: Seq<ThingView>, next_cursor: Option<u64> },
    WatchRegistered { watch_id: u64 },
    WatchUnregistered,
    WatchEvents { from_revision: u64, latest_revision: u64, changes: Seq<ChangeView> },
    Props { props: Map<u32, ValueView> },
    CapabilityGranted { granted: bool },
    DevOpened { handle: Option<u64> },
    DevRead { data: Seq<u8> },
    DevWritten { len: usize },
    IrqBound { handle: Option<u64> },
    IrqAcked,
    Error { message: Seq<char> },
}

/// The reply to a request made through the Thing runtime.
#[derive(Debug)]
#[allow(inconsistent_fields)]
pub enum AbiResponse {
    Fiat { thing: GraphThing },
    Link { edge: Option<GraphEdge> },
    Get { thing: Option<GraphThing> },
    Query { things: Vec<GraphThing> },
    Find { things: Vec<GraphThing>, next_cursor: Option<u64> },
    WatchRegistered { watch_id: u64 },
    WatchUnregistered,
    WatchEvents { events: GraphWatchBatch },
    Props { props: SymbolMap },
    CapabilityGranted { granted: bool },
    DevOpened { handle: Option<u64> },
    DevRead { data: Vec<u8> },
    DevWritten { len: usize },
    IrqBound { handle: Option<u64> },
    IrqAcked,
    Error { message: String },
}

impl View for AbiResponse {
    type V = ResponseView;

    open spec fn view(&self) -> ResponseView {
        match self {
            AbiResponse::Fiat { thing } => ResponseView::Fiat { thing: thing@ },
            AbiResponse::Link { edge } => ResponseView::Link {
                edge: match edge {
                    Some(e) => Some(e@),
                    None => None,
                },
            },
            AbiResponse::Get { thing } => ResponseView::Get {
                thing: match thing {
                    Some(t) => Some(t@),
                    None => None,
                },
            },
            AbiResponse::Query { things } => ResponseView::Query { things: things_view(things@) },
            AbiResponse::Find { things, next_cursor } => ResponseView::Find {
                things: things_view(things@),
                next_cursor: *next_cursor,
            },
            AbiResponse::WatchRegistered { watch_id } => ResponseView::WatchRegistered {
                watch_id: *watch_id,
            },
            AbiResponse::WatchUnregistered => ResponseView::WatchUnregistered,
            AbiResponse::WatchEvents { events } => ResponseView::WatchEvents {
                from_revision: events.from_revision,
                latest_revision: events.latest_revision,
                changes: changes_view(events.changes@),
            },
            AbiResponse::Props { props } => ResponseView::Props { props: props@ },
            AbiResponse::CapabilityGranted { granted } => ResponseView::CapabilityGranted {
                granted: *granted,
            },
            AbiResponse::DevOpened { handle } => ResponseView::DevOpened { handle: *handle },
            AbiResponse::DevRead { data } => ResponseView::DevRead { data: data@ },
            AbiResponse::DevWritten { len } => ResponseView::DevWritten { len: *len },
            AbiResponse::IrqBound { handle } => ResponseView::IrqBound { handle: *handle },
            AbiResponse::IrqAcked => ResponseView::IrqAcked,
            AbiResponse::Error { message } => ResponseView::Error { message: message@ },
        }
    }
}

/// The id the `n`-th generated UUID gets: the counter in both halves.
pub open spec fn spec_uuid_from_counter(n: u64) -> u128 {
    ((n as int) * 0x1_0000_0000_0000_0000 + (n as int)) as u128
}

/// The id generated from counter value `n`.
pub fn uuid_from_counter(n: u64) -> (u: u128)
    ensures
        u == spec_uuid_from_counter(n),
{
    let x: u128 = n as u128;
    assert((x << 64u128) | x == x * 0x1_0000_0000_0000_0000u128 + x) by (bit_vector)
        requires
            x < 0x1_0000_0000_0000_0000u128,
    ;
    (x << 64u128) | x
}

} // verus!
