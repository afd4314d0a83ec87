use thingos::abi::{KERNEL_BUNDLE_ID, SymbolMap, Value};
use thingos::canon::{
    Symbol, ADDR, BUFFER, BUFFER_KIND, BUFFER_USAGE, BUNDLE, BYTES, CAN_DMA, CAN_LINK, CAN_READ, CAN_WRITE,
    CAPACITY, HAS_DATA, HEAD, ID, KIND, NAME, OWNER, OWNS, PIPE_USAGE, QUEUE_STATE, RING, SHARED_BUFFER, STATUS,
    TAIL, THING_CREATED, WRITE, TEXT,
};
use thingos::kstore::{
    bundle_id, create_bundle, derive_uuid, edge_props, get_or_create_bundle, grant_initial_capability,
    lookup_bundle, node_plan, GrantCapabilityRequest, GraphChange, GraphFiatRequest, GraphLinkRequest,
    GraphNodeRequest, GraphSnapshot, GraphThatRequest, Store, WatchQuery, console_text,
};
use thingos::records::{GraphPropsGetRequest, GraphPropsRequest, GraphThing, NodePattern};
use thingos::symset::SymbolSet;
use thingos::ids::NAMESPACE_OID;
use thingos::telemetry::BundleType;
use thingos::thingable::{QueueState, SharedBuffer};

const ALICE: u128 = 0xa11ce;
const BOB: u128 = 0xb0b;
const WINDOW: u32 = 0x57494e;
const TITLE: u32 = 0x54544c;

fn fields(pairs: &[(u32, Value)]) -> SymbolMap {
    let mut m = SymbolMap::new();
    for (k, v) in pairs {
        m.insert(Symbol(*k), v.copy());
    }
    m
}

fn node(store: &mut Store, owner: u128, id: u128, kind: u32) -> GraphThing {
    let req = GraphNodeRequest { id: Some(id), labels: vec![Symbol(kind)], props: SymbolMap::new() };
    store.fiat_node(owner, req, 0, id ^ 0xffff)
}

#[test]
fn shared_buffer_round_trips_through_thingable() {
    let f = fields(&[
        (BYTES, Value::U64(128)),
        (BUFFER_KIND, Value::Symbol(Symbol(RING))),
        (BUFFER_USAGE, Value::Symbol(Symbol(PIPE_USAGE))),
        (ADDR, Value::U64(0xdead_beefu64)),
    ]);
    let thing = GraphThing {
        id: 0,
        kind: Symbol(SHARED_BUFFER),
        labels: SymbolSet::new(),
        fields: f,
        owner: 0,
        revision: 1,
    };
    let loaded = SharedBuffer::load(&thing).expect("shared buffer should decode");
    assert_eq!(loaded.size_bytes, 128);
    assert_eq!(loaded.kind, Symbol(RING));
    assert_eq!(loaded.usage, Symbol(PIPE_USAGE));
    assert_eq!(loaded.addr, Some(0xdead_beefu64));
    assert!(loaded.props.contains_key(&Symbol(BYTES)));
}

#[test]
fn queue_state_round_trips_through_thingable() {
    let f = fields(&[
        (BUFFER, Value::Uuid(0)),
        (HEAD, Value::U64(4)),
        (TAIL, Value::U64(2)),
        (HAS_DATA, Value::Bool(true)),
        (CAPACITY, Value::U64(256)),
        (OWNER, Value::Uuid(0)),
    ]);
    let thing = GraphThing {
        id: 2,
        kind: Symbol(QUEUE_STATE),
        labels: SymbolSet::new(),
        fields: f,
        owner: 0,
        revision: 1,
    };
    let loaded = QueueState::load(&thing).expect("queue state should decode");
    assert_eq!(loaded.head, 4);
    assert_eq!(loaded.tail, 2);
    assert_eq!(loaded.capacity, Some(256));
    assert!(loaded.has_data);
    assert_eq!(loaded.buffer, 0);
}

#[test]
fn kernel_fiat_creates_owned_node_and_bundle() {
    let mut store = Store::new();
    let req = GraphNodeRequest { id: None, labels: vec![Symbol(WINDOW)], props: fields(&[(TITLE, Value::text("t"))]) };
    let t = store.fiat_node(ALICE, req, 77, 78);
    assert_eq!(t.id, 77);
    assert_eq!(t.kind, Symbol(WINDOW));
    assert_eq!(t.owner, ALICE);
    // the bundle node took revision 1, the Thing revision 2
    assert_eq!(t.revision, 2);
    assert!(t.fields.get(&Symbol(OWNER)).unwrap().same_as(&Value::Uuid(ALICE)));
    let b = store.latest(ALICE).unwrap();
    assert_eq!(b.kind, Symbol(BUNDLE));
    assert!(b.fields.get(&Symbol(ID)).unwrap().same_as(&Value::Uuid(ALICE)));
    assert!(store.owns(ALICE, 77));
    assert!(!store.owns(BOB, 77));
    assert!(store.can_write(ALICE, 77));
    assert!(store.can_read(ALICE, 77));
    assert!(!store.can_read(BOB, 77));
    assert!(store.can_read(KERNEL_BUNDLE_ID, 77));
    let own = store.edges_of(ALICE, Symbol(OWNS));
    assert_eq!(own.len(), 1);
    assert_eq!(own[0].id, 78);
    assert_eq!(own[0].dst, 77);
    assert_eq!(own[0].revision, 2);
}

#[test]
fn fiat_without_labels_is_thing_created_and_keeps_given_owner() {
    let mut store = Store::new();
    let req = GraphNodeRequest { id: Some(5), labels: vec![], props: fields(&[(OWNER, Value::Uuid(BOB))]) };
    let t = store.fiat_node(ALICE, req, 0, 1);
    assert_eq!(t.kind, Symbol(THING_CREATED));
    assert!(t.fields.get(&Symbol(OWNER)).unwrap().same_as(&Value::Uuid(BOB)));
    let req = GraphNodeRequest { id: Some(6), labels: vec![Symbol(9), Symbol(3), Symbol(7)], props: SymbolMap::new() };
    let t = store.fiat_node(ALICE, req, 0, 2);
    assert_eq!(t.kind, Symbol(3));
    assert_eq!(t.labels.len(), 3);
}

#[test]
fn linking_needs_ownership_or_capability() {
    let mut store = Store::new();
    node(&mut store, ALICE, 10, WINDOW);
    node(&mut store, BOB, 20, WINDOW);
    node(&mut store, BOB, 21, WINDOW);
    let link = |k: u32, from: u128, to: u128| GraphLinkRequest { id: None, kind: Symbol(k), from, to, props: SymbolMap::new() };
    // Alice may link into her own node
    assert!(store.link_edge(ALICE, link(0x4853, 20, 10), 500) > 0);
    // but not between Bob's nodes
    assert_eq!(store.link_edge(ALICE, link(0x4853, 20, 21), 501), 0);
    // a CAN_LINK grant restricted to a kind allows only that kind
    let mut props = SymbolMap::new();
    props.insert(Symbol(KIND), Value::Symbol(Symbol(0x4853)));
    let grant = thingos::kstore::GraphLinkRequest { id: Some(900), kind: Symbol(CAN_LINK), from: ALICE, to: 20, props };
    assert!(store.link_edge(KERNEL_BUNDLE_ID, grant, 0) > 0);
    assert!(store.can_link(ALICE, 20, 21, Symbol(0x4853)));
    assert!(!store.can_link(ALICE, 20, 21, Symbol(0x4854)));
    assert!(store.link_edge(ALICE, link(0x4853, 20, 21), 502) > 0);
    let that = GraphThatRequest { src: 21, pred: Symbol(0x4854), dst: 20, revision_hint: 0, props: SymbolMap::new() };
    assert_eq!(store.that(ALICE, that, 503), 0);
}

#[test]
fn grants_follow_the_delegation_policy() {
    let mut store = Store::new();
    node(&mut store, ALICE, 10, WINDOW);
    let req = |cap: u32| GrantCapabilityRequest { grantee: BOB, target: 10, capability: Symbol(cap) };
    // hardware capabilities are kernel-only
    assert!(!store.grant_capability(ALICE, req(CAN_DMA), 1));
    assert!(!store.bundle_has_capability(BOB, 10, Symbol(CAN_DMA)));
    assert!(grant_initial_capability(&mut store, BOB, 10, Symbol(CAN_DMA), 2));
    assert!(store.bundle_has_capability(BOB, 10, Symbol(CAN_DMA)));
    // not a capability at all
    assert!(!store.grant_capability(KERNEL_BUNDLE_ID, req(WINDOW), 3));
    // a stranger may not delegate data access
    assert!(!store.grant_capability(BOB, GrantCapabilityRequest { grantee: 0xc, target: 10, capability: Symbol(CAN_READ) }, 4));
    // the owner may
    assert!(!store.can_read(BOB, 10));
    assert!(store.grant_capability(ALICE, req(CAN_READ), 5));
    assert!(store.can_read(BOB, 10));
    assert!(!store.can_write(BOB, 10));
    assert!(store.grant_capability(ALICE, req(CAN_WRITE), 6));
    assert!(store.can_write(BOB, 10));
    let e = store.edges_of(BOB, Symbol(CAN_WRITE));
    assert_eq!(e.len(), 1);
    assert_eq!(e[0].id, 6);
    assert_eq!(e[0].owner, ALICE);
    assert!(e[0].props.get(&Symbol(OWNER)).unwrap().same_as(&Value::Uuid(ALICE)));
    // the grantee got a bundle node
    assert_eq!(store.latest(BOB).unwrap().kind, Symbol(BUNDLE));
    // a holder may delegate what it holds, and nothing more
    assert!(store.grant_capability(BOB, GrantCapabilityRequest { grantee: 0xc, target: 10, capability: Symbol(CAN_READ) }, 7));
    assert!(store.bundle_has_capability(0xc, 10, Symbol(CAN_READ)));
    assert!(store.can_read(0xc, 10));
    assert!(!store.grant_capability(0xc, GrantCapabilityRequest { grantee: 0xd, target: 10, capability: Symbol(CAN_WRITE) }, 8));
    assert!(!store.bundle_has_capability(0xd, 10, Symbol(CAN_WRITE)));
}

#[test]
fn props_need_rights_and_merge() {
    let mut store = Store::new();
    node(&mut store, ALICE, 10, WINDOW);
    let set = |p: SymbolMap| GraphPropsRequest { node: 10, props: p };
    assert!(!store.set_props(BOB, set(fields(&[(TITLE, Value::text("x"))]))));
    assert!(!store.set_props(ALICE, GraphPropsRequest { node: 11, props: SymbolMap::new() }));
    assert!(store.set_props(ALICE, set(fields(&[(TITLE, Value::text("hello"))]))));
    let all = store.get_props(ALICE, GraphPropsGetRequest { node: 10, keys: vec![] }).unwrap();
    assert!(all.get(&Symbol(TITLE)).unwrap().same_as(&Value::text("hello")));
    assert!(all.contains_key(&Symbol(OWNER)));
    let some = store.get_props(ALICE, GraphPropsGetRequest { node: 10, keys: vec![Symbol(TITLE), Symbol(0x999)] }).unwrap();
    assert_eq!(some.len(), 1);
    assert!(store.get_props(BOB, GraphPropsGetRequest { node: 10, keys: vec![] }).is_none());
    assert!(store.get_props(ALICE, GraphPropsGetRequest { node: 12, keys: vec![] }).is_none());
    assert_eq!(store.latest(10).unwrap().revision, 3);
}

#[test]
fn kernel_watches_deliver_visible_matching_changes() {
    let mut store = Store::new();
    let w = store.register_watch(ALICE, WatchQuery { kind: Some(Symbol(WINDOW)), src: None, dst: None });
    let other = store.register_watch(BOB, WatchQuery { kind: Some(Symbol(WINDOW)), src: None, dst: None });
    assert_eq!(w, 1);
    assert_eq!(other, 2);
    node(&mut store, ALICE, 10, WINDOW);
    node(&mut store, ALICE, 11, 0x1234);
    let batch = store.poll_watch(w).unwrap();
    assert_eq!(batch.changes.len(), 1);
    match &batch.changes[0] {
        GraphChange::Thing(t) => assert_eq!(t.id, 10),
        _ => panic!("expected a Thing"),
    }
    assert_eq!(batch.from_revision, 2);
    assert_eq!(batch.latest_revision, 2);
    assert_eq!(store.poll_watch(w).unwrap().changes.len(), 0);
    // Bob may not see Alice's node
    assert_eq!(store.poll_watch(other).unwrap().changes.len(), 0);
    assert!(store.poll_watch(99).is_none());
}

#[test]
fn find_by_kind_skips_unreadable_and_pages() {
    let mut store = Store::new();
    for i in 0..3u128 {
        node(&mut store, ALICE, 100 + i, WINDOW);
    }
    node(&mut store, BOB, 200, WINDOW);
    let (found, next) = store.find_by_kind(ALICE, "window", 0);
    assert_eq!(found.len(), 3);
    assert_eq!(found[0].id, 100);
    assert_eq!(next, 0);
    let (rest, next) = store.find_by_kind(ALICE, "window", 2);
    assert_eq!(rest.len(), 1);
    assert_eq!(rest[0].id, 102);
    assert_eq!(next, 0);
    let (all, _) = store.find_by_kind(KERNEL_BUNDLE_ID, "window", 0);
    assert_eq!(all.len(), 4);
    // the kind name must be one the symbol table knows
    let (none, zero) = store.find_by_kind(ALICE, "no-such-kind", 0);
    assert!(none.is_empty());
    assert_eq!(zero, 0);
    let ofk = store.latest_of_kind(Symbol(WINDOW));
    assert_eq!(ofk.len(), 4);
    assert_eq!(ofk[0].id, 100);
    assert_eq!(ofk[3].id, 200);
    let mut p = NodePattern::new();
    p.labels.push(Symbol(WINDOW));
    let nodes = store.get_nodes(ALICE, p);
    assert_eq!(nodes.len(), 3);
    assert_eq!(nodes[2].id, 102);
}

#[test]
fn snapshot_round_trips() {
    let mut store = Store::new();
    node(&mut store, ALICE, 10, WINDOW);
    assert!(store.set_props(ALICE, GraphPropsRequest { node: 10, props: fields(&[(TITLE, Value::text("a"))]) }));
    let snap: GraphSnapshot = store.snapshot();
    assert_eq!(snap.revision, 3);
    // versions: Alice's bundle node, two of the window
    assert_eq!(snap.things.len(), 3);
    assert_eq!(snap.thing_count, 2);
    assert_eq!(snap.edge_count, 1);
    let mut other = Store::new();
    other.apply_snapshot(snap);
    assert_eq!(other.latest(10).unwrap().revision, 3);
    assert!(other.owns(ALICE, 10));
    let t = node(&mut other, ALICE, 11, WINDOW);
    assert_eq!(t.revision, 4);
    let batch = other.changes_since(1);
    assert_eq!(batch.from_revision, 1);
    assert_eq!(batch.latest_revision, 4);
    assert!(batch.changes.is_empty());
}

#[test]
fn bundles_are_named_and_found() {
    let mut store = Store::new();
    assert_eq!(bundle_id("ps2_keyboard_driver"), uuid::Uuid::new_v5(&uuid::Uuid::NAMESPACE_OID, b"ps2_keyboard_driver").as_u128());
    assert!(lookup_bundle(&store, "shell").is_none());
    let id = create_bundle(&mut store, "shell", BundleType::App, Some("1.0"), 1);
    assert_eq!(id, bundle_id("shell"));
    assert_eq!(lookup_bundle(&store, "shell"), Some(id));
    let t = store.latest(id).unwrap();
    assert!(t.fields.get(&Symbol(NAME)).unwrap().same_as(&Value::text("shell")));
    assert!(t.fields.get(&Symbol(STATUS)).is_some());
    assert_eq!(get_or_create_bundle(&mut store, "shell", 2), id);
    let d = get_or_create_bundle(&mut store, "net_driver", 3);
    assert_eq!(d, bundle_id("net_driver"));
    assert!(store.owns(d, d));
}

#[test]
fn derived_ids_are_name_based_uuids() {
    let id = derive_uuid(Symbol(0x01020304), &[9, 8]);
    let expected = uuid::Uuid::new_v5(&uuid::Uuid::NAMESPACE_OID, &[1, 2, 3, 4, 9, 8]).as_u128();
    assert_eq!(id, expected);
    assert_eq!(NAMESPACE_OID, uuid::Uuid::NAMESPACE_OID.as_u128());
    let p = edge_props(1, 2);
    assert_eq!(p.len(), 2);
    assert!(p.get(&Symbol(OWNER)).unwrap().same_as(&Value::Uuid(1)));
}

#[test]
fn node_plan_and_console_text() {
    let req = GraphNodeRequest { id: None, labels: vec![], props: SymbolMap::new() };
    let (kind, labels, props) = node_plan(ALICE, &req);
    assert_eq!(kind, Symbol(THING_CREATED));
    assert!(labels.contains(&Symbol(THING_CREATED)));
    assert!(props.get(&Symbol(OWNER)).unwrap().same_as(&Value::Uuid(ALICE)));
    let w = GraphThing {
        id: 1,
        kind: Symbol(WRITE),
        labels: SymbolSet::new(),
        fields: fields(&[(TEXT, Value::text("hi"))]),
        owner: 0,
        revision: 1,
    };
    assert_eq!(console_text(&w), Some("hi".to_string()));
    let f = GraphFiatRequest { id: Some(3), kind: Symbol(WINDOW), fields: SymbolMap::new() };
    let mut store = Store::new();
    let t = store.fiat(ALICE, f, 0, 0);
    assert_eq!(t.id, 3);
    assert_eq!(t.kind, Symbol(WINDOW));
}

#[test]
fn find_by_kind_pages_at_the_limit() {
    let mut store = Store::new();
    for i in 0..102u128 {
        node(&mut store, ALICE, 1000 + i, WINDOW);
    }
    let (page, next) = store.find_by_kind(ALICE, "window", 0);
    assert_eq!(page.len(), 100);
    assert_eq!(next, 100);
    assert_eq!(page[99].id, 1099);
    let (page, next) = store.find_by_kind(ALICE, "window", next);
    assert_eq!(page.len(), 2);
    assert_eq!(page[1].id, 1101);
    assert_eq!(next, 0);
}
