use thingos::abi::{SymbolMap, Value};
use thingos::canon::Symbol;
use thingos::host::HostRuntime;
use thingos::records::{
    AbiRequest, AbiResponse, GraphChange, GraphPropsGetRequest, GraphPropsRequest, GraphThing,
    NodePattern, uuid_from_counter,
};
use thingos::symset::SymbolSet;
use thingos::ui_graph::{cursor_fields, toolbar, toolbar_button, widget_fields, Cursor, Widget, WidgetBuilder};

fn fiat(rt: &mut HostRuntime, id: Option<u128>, kind: u32, fields: SymbolMap) -> GraphThing {
    match rt.call(AbiRequest::Fiat { id, kind: Symbol(kind), labels: Vec::new(), fields }) {
        AbiResponse::Fiat { thing } => thing,
        other => panic!("unexpected {:?}", other),
    }
}

#[test]
fn graph_change_reports_revision() {
    let thing = GraphThing {
        id: 0,
        kind: Symbol::new(0),
        labels: SymbolSet::new(),
        fields: SymbolMap::new(),
        owner: 0,
        revision: 42,
    };
    let change = GraphChange::Thing(thing);
    assert_eq!(change.revision(), 42);
}

#[test]
fn fiat_then_get_returns_the_thing() {
    let mut rt = HostRuntime::new();
    let mut f = SymbolMap::new();
    f.insert(Symbol(0x4e414d), Value::Text("root".to_string()));
    let t = fiat(&mut rt, None, 0x57494e, f);
    assert_eq!(t.id, uuid_from_counter(0));
    assert_eq!(t.revision, 1);
    assert!(t.labels.contains(&Symbol(0x57494e)));
    assert_eq!(t.labels.len(), 1);
    match rt.call(AbiRequest::Get { id: t.id }) {
        AbiResponse::Get { thing: Some(g) } => {
            assert_eq!(g.id, t.id);
            assert_eq!(g.kind, Symbol(0x57494e));
            assert!(g.fields.get(&Symbol(0x4e414d)).unwrap().same_as(&Value::Text("root".to_string())));
        }
        other => panic!("unexpected {:?}", other),
    }
    match rt.call(AbiRequest::Get { id: 7 }) {
        AbiResponse::Get { thing: None } => {}
        other => panic!("unexpected {:?}", other),
    }
}

#[test]
fn ids_and_revisions_advance() {
    let mut rt = HostRuntime::new();
    let a = fiat(&mut rt, None, 1, SymbolMap::new());
    let b = fiat(&mut rt, None, 1, SymbolMap::new());
    let c = fiat(&mut rt, Some(5), 1, SymbolMap::new());
    assert_eq!(a.id, 0);
    assert_eq!(b.id, (1u128 << 64) | 1);
    assert_eq!(c.id, 5);
    assert_eq!((a.revision, b.revision, c.revision), (1, 2, 3));
}

#[test]
fn query_matches_labels_and_props() {
    let mut rt = HostRuntime::new();
    let mut f = SymbolMap::new();
    f.insert(Symbol(10), Value::U64(3));
    fiat(&mut rt, Some(2), 0x57494e, f);
    fiat(&mut rt, Some(1), 0x534643, SymbolMap::new());
    let mut p = NodePattern::new();
    p.labels.push(Symbol(0x57494e));
    match rt.call(AbiRequest::Query { pattern: p }) {
        AbiResponse::Query { things } => {
            assert_eq!(things.len(), 1);
            assert_eq!(things[0].id, 2);
        }
        other => panic!("unexpected {:?}", other),
    }
    let mut p = NodePattern::new();
    p.props.insert(Symbol(10), Value::U64(4));
    match rt.call(AbiRequest::Query { pattern: p }) {
        AbiResponse::Query { things } => assert_eq!(things.len(), 0),
        other => panic!("unexpected {:?}", other),
    }
    match rt.call(AbiRequest::Query { pattern: NodePattern::new() }) {
        AbiResponse::Query { things } => {
            let ids: Vec<u128> = things.iter().map(|t| t.id).collect();
            assert_eq!(ids, vec![1, 2]);
        }
        other => panic!("unexpected {:?}", other),
    }
}

#[test]
fn find_by_kind_pages_through_every_thing_in_id_order() {
    let mut rt = HostRuntime::new();
    for i in 0..70u128 {
        fiat(&mut rt, Some(100 - i), 0x57494e, SymbolMap::new());
    }
    fiat(&mut rt, Some(1000), 0x534643, SymbolMap::new());
    match rt.call(AbiRequest::FindByKind { kind: "window".to_string(), cursor: None }) {
        AbiResponse::Find { things, next_cursor } => {
            assert_eq!(things.len(), 64);
            assert_eq!(things[0].id, 31);
            assert_eq!(next_cursor, Some(64));
        }
        other => panic!("unexpected {:?}", other),
    }
    match rt.call(AbiRequest::FindByKind { kind: "window".to_string(), cursor: Some(64) }) {
        AbiResponse::Find { things, next_cursor } => {
            assert_eq!(things.len(), 7);
            assert_eq!(things[5].id, 100);
            assert_eq!(things[6].id, 1000);
            assert_eq!(next_cursor, None);
        }
        other => panic!("unexpected {:?}", other),
    }
    match rt.call(AbiRequest::FindByKind { kind: "no such kind".to_string(), cursor: Some(70) }) {
        AbiResponse::Find { things, next_cursor } => {
            assert_eq!(things.len(), 1);
            assert_eq!(things[0].id, 1000);
            assert_eq!(next_cursor, None);
        }
        other => panic!("unexpected {:?}", other),
    }
    match rt.call(AbiRequest::FindByKind { kind: "surface".to_string(), cursor: Some(71) }) {
        AbiResponse::Find { things, next_cursor } => {
            assert!(things.is_empty());
            assert_eq!(next_cursor, None);
        }
        other => panic!("unexpected {:?}", other),
    }
}

#[test]
fn props_set_merges_and_props_get_selects() {
    let mut rt = HostRuntime::new();
    let mut f = SymbolMap::new();
    f.insert(Symbol(1), Value::U64(1));
    f.insert(Symbol(2), Value::U64(2));
    let t = fiat(&mut rt, Some(9), 5, f);
    let mut p = SymbolMap::new();
    p.insert(Symbol(2), Value::U64(20));
    p.insert(Symbol(3), Value::Bool(true));
    match rt.call(AbiRequest::PropsSet { request: GraphPropsRequest { node: 9, props: p } }) {
        AbiResponse::Props { props } => {
            assert_eq!(props.len(), 3);
            assert!(props.get(&Symbol(2)).unwrap().same_as(&Value::U64(20)));
        }
        other => panic!("unexpected {:?}", other),
    }
    let req = GraphPropsGetRequest { node: t.id, keys: vec![Symbol(1), Symbol(4)] };
    match rt.call(AbiRequest::PropsGet { request: req }) {
        AbiResponse::Props { props } => {
            assert_eq!(props.len(), 1);
            assert!(props.get(&Symbol(1)).unwrap().same_as(&Value::U64(1)));
        }
        other => panic!("unexpected {:?}", other),
    }
    match rt.call(AbiRequest::PropsGet { request: GraphPropsGetRequest { node: 77, keys: vec![] } }) {
        AbiResponse::Error { message } => assert_eq!(message, "thing not found"),
        other => panic!("unexpected {:?}", other),
    }
}

#[test]
fn watches_collect_matching_changes() {
    let mut rt = HostRuntime::new();
    let mut p = NodePattern::new();
    p.labels.push(Symbol(0x57494e));
    let w = match rt.call(AbiRequest::WatchRegister { pattern: p }) {
        AbiResponse::WatchRegistered { watch_id } => watch_id,
        other => panic!("unexpected {:?}", other),
    };
    assert_eq!(w, 1);
    fiat(&mut rt, Some(3), 0x57494e, SymbolMap::new());
    fiat(&mut rt, Some(4), 0x534643, SymbolMap::new());
    match rt.call(AbiRequest::WatchPoll { watch_id: w, max_events: Some(1) }) {
        AbiResponse::WatchEvents { events } => {
            assert_eq!(events.from_revision, 1);
            assert_eq!(events.latest_revision, 1);
            assert_eq!(events.changes.len(), 1);
            assert_eq!(events.changes[0].revision(), 1);
        }
        other => panic!("unexpected {:?}", other),
    }
    match rt.call(AbiRequest::WatchPoll { watch_id: 99, max_events: None }) {
        AbiResponse::WatchEvents { events } => {
            assert_eq!((events.from_revision, events.latest_revision), (0, 0));
            assert!(events.changes.is_empty());
        }
        other => panic!("unexpected {:?}", other),
    }
    match rt.call(AbiRequest::WatchUnregister { watch_id: w }) {
        AbiResponse::WatchUnregistered => {}
        other => panic!("unexpected {:?}", other),
    }
}

#[test]
fn devices_hand_out_queued_bytes() {
    let mut rt = HostRuntime::new();
    rt.push_scancode(0x1e);
    rt.push_scancode(0x9e);
    rt.push_mouse_packet(&[8, 1, 2]);
    let kb = match rt.call(AbiRequest::DevOpen { kind: 1, index: 0 }) {
        AbiResponse::DevOpened { handle: Some(h) } => h,
        other => panic!("unexpected {:?}", other),
    };
    let mouse = match rt.call(AbiRequest::DevOpen { kind: 2, index: 0 }) {
        AbiResponse::DevOpened { handle: Some(h) } => h,
        other => panic!("unexpected {:?}", other),
    };
    assert_eq!((kb, mouse), (1, 2));
    match rt.call(AbiRequest::DevRead { handle: kb, len: 1 }) {
        AbiResponse::DevRead { data } => assert_eq!(data, vec![0x1e]),
        other => panic!("unexpected {:?}", other),
    }
    match rt.call(AbiRequest::DevRead { handle: kb, len: 8 }) {
        AbiResponse::DevRead { data } => assert_eq!(data, vec![0x9e]),
        other => panic!("unexpected {:?}", other),
    }
    match rt.call(AbiRequest::DevRead { handle: mouse, len: 8 }) {
        AbiResponse::DevRead { data } => assert_eq!(data, vec![8, 1, 2]),
        other => panic!("unexpected {:?}", other),
    }
    match rt.call(AbiRequest::DevWrite { handle: kb, data: vec![1] }) {
        AbiResponse::DevWritten { len } => assert_eq!(len, 0),
        other => panic!("unexpected {:?}", other),
    }
}

fn load(rt: &mut HostRuntime, id: u128) -> GraphThing {
    match rt.call(AbiRequest::Get { id }) {
        AbiResponse::Get { thing: Some(t) } => t,
        other => panic!("unexpected {:?}", other),
    }
}

fn that(rt: &mut HostRuntime, from: u128, pred: &str, to: u128) {
    match rt.call(AbiRequest::Link { id: None, from, pred: pred.to_string(), to, props: SymbolMap::new() }) {
        AbiResponse::Link { .. } => {}
        other => panic!("unexpected {:?}", other),
    }
}

#[test]
fn test_ui_graph() {
    let mut rt = HostRuntime::new();
    let widget = 0x574447;
    let cursor = 0x435253;
    let window_id = fiat(&mut rt, None, widget, widget_fields("window", true, true, Some("Test Window"))).id;
    let scroll_container_id = fiat(&mut rt, None, widget, widget_fields("scroll_container", true, true, None)).id;
    that(&mut rt, window_id, "CHD", scroll_container_id);
    let content_id = fiat(&mut rt, None, widget, widget_fields("list", true, true, None)).id;
    that(&mut rt, scroll_container_id, "HCT", content_id);
    let cursor_id = fiat(&mut rt, None, cursor, cursor_fields("vertical", 0, 100, 1000)).id;
    that(&mut rt, scroll_container_id, "HCR", cursor_id);
    let scrollbar_id = fiat(&mut rt, None, widget, widget_fields("scrollbar", true, true, None)).id;
    that(&mut rt, window_id, "CHD", scrollbar_id);
    that(&mut rt, scrollbar_id, "CTL", cursor_id);

    let window_thing = Widget::load(&load(&mut rt, window_id)).expect("Window not found");
    assert_eq!(window_thing.role, "window");
    assert_eq!(window_thing.label.as_deref(), Some("Test Window"));

    let cursor_thing = Cursor::load(&load(&mut rt, cursor_id)).expect("Cursor not found");
    assert_eq!(cursor_thing.kind, "vertical");
    assert_eq!(cursor_thing.position, 0);
    assert_eq!(cursor_thing.total_size, 1000);
}

#[test]
fn widget_update_keeps_what_is_not_read() {
    let mut rt = HostRuntime::new();
    let id = fiat(&mut rt, None, 0x574447, widget_fields("button", false, true, None)).id;
    let mut w = Widget::load(&load(&mut rt, id)).expect("widget");
    assert_eq!(w.role, "button");
    assert!(!w.visible);
    assert!(w.enabled);
    assert!(!w.focusable);
    assert_eq!(w.label, None);
    let mut f = SymbolMap::new();
    f.insert(Symbol(0x4c424c), Value::I64(3));
    f.insert(Symbol(0x474150), Value::I64(0x1_0000_0005));
    f.insert(Symbol(0x464400), Value::Text("row".to_string()));
    let t = fiat(&mut rt, None, 0x574447, f);
    w.update(&t);
    assert_eq!(w.role, "button");
    assert!(!w.visible);
    assert_eq!(w.label, None);
    assert_eq!(w.gap, Some(5));
    assert!(w.flex_direction.is_some());
    let other = fiat(&mut rt, None, 1, SymbolMap::new());
    assert!(Widget::load(&other).is_none());
    assert!(Cursor::load(&other).is_none());
}

#[test]
fn toolbar_button_describes_a_focusable_child() {
    let b = toolbar_button(5, "close", "quit", Some("Close"));
    assert_eq!(b.role, "control.toolbar_button");
    assert_eq!(b.parent, Some(5));
    assert!(b.focusable);
    let f = b.fields();
    assert!(f.get(&Symbol(0x49434e)).unwrap().same_as(&Value::Text("close".to_string())));
    assert!(f.get(&Symbol(0x4c424c)).unwrap().same_as(&Value::Text("Close".to_string())));
    assert!(f.get(&Symbol(0x464353)).unwrap().same_as(&Value::Bool(true)));
    let t = toolbar(5);
    assert_eq!(t.role, "container.toolbar");
    assert!(t.fields().get(&Symbol(0x4c424c)).is_none());
    let plain = WidgetBuilder::new().set_property(Symbol(0x49434e), Value::I64(1));
    assert_eq!(plain.role, "widget");
    assert_eq!(plain.icon, None);
}
