use thingos::abi::SymbolMap;
use thingos::canon::{Symbol, CURSOR, WIDGET};
use thingos::host::HostRuntime;
use thingos::records::{AbiRequest, AbiResponse, GraphThing};
use thingos::semantic_ui::{cursor_fields, widget_fields, Cursor, Widget};

fn fiat(rt: &mut HostRuntime, kind: u32, fields: SymbolMap) -> u128 {
    match rt.call(AbiRequest::Fiat { id: None, kind: Symbol(kind), labels: vec![Symbol(kind)], fields }) {
        AbiResponse::Fiat { thing } => thing.id,
        other => panic!("unexpected {:?}", other),
    }
}

fn create_widget(rt: &mut HostRuntime, role: &str, visible: bool, enabled: bool, label: Option<&str>) -> u128 {
    fiat(rt, WIDGET, widget_fields(role, visible, enabled, label))
}

fn create_cursor(rt: &mut HostRuntime, kind: &str, position: i64, page_size: i64, total_size: i64) -> u128 {
    fiat(rt, CURSOR, cursor_fields(kind, position, page_size, total_size))
}

fn that(rt: &mut HostRuntime, src: u128, pred: &str, dst: u128) {
    let _ = rt.call(AbiRequest::Link { id: None, from: src, pred: pred.to_string(), to: dst, props: SymbolMap::new() });
}

fn load(rt: &mut HostRuntime, id: u128) -> Option<GraphThing> {
    match rt.call(AbiRequest::Get { id }) {
        AbiResponse::Get { thing } => thing,
        _ => None,
    }
}

#[test]
fn test_semantic_ui_graph() {
    let mut rt = HostRuntime::new();

    let window_id = create_widget(&mut rt, "window", true, true, Some("Test Window"));
    let scroll_container_id = create_widget(&mut rt, "scroll_container", true, true, None);
    that(&mut rt, window_id, "CHILD", scroll_container_id);
    let content_id = create_widget(&mut rt, "list", true, true, None);
    that(&mut rt, scroll_container_id, "HAS_CONTENT", content_id);
    let cursor_id = create_cursor(&mut rt, "vertical", 0, 100, 1000);
    that(&mut rt, scroll_container_id, "HAS_CURSOR", cursor_id);
    let scrollbar_id = create_widget(&mut rt, "scrollbar", true, true, None);
    that(&mut rt, window_id, "CHILD", scrollbar_id);
    that(&mut rt, scrollbar_id, "CONTROLS", cursor_id);

    let window_thing = load(&mut rt, window_id).and_then(|t| Widget::load(&t)).expect("Window not found");
    assert_eq!(window_thing.role, "window");
    assert_eq!(window_thing.label.as_deref(), Some("Test Window"));

    let cursor_thing = load(&mut rt, cursor_id).and_then(|t| Cursor::load(&t)).expect("Cursor not found");
    assert_eq!(cursor_thing.kind, "vertical");
    assert_eq!(cursor_thing.position, 0);
    assert_eq!(cursor_thing.total_size, 1000);
}

#[test]
fn widgets_default_and_reject_other_kinds() {
    let mut rt = HostRuntime::new();
    let id = create_widget(&mut rt, "button", false, true, None);
    let w = load(&mut rt, id).and_then(|t| Widget::load(&t)).unwrap();
    assert!(!w.visible);
    assert!(w.enabled);
    assert!(!w.focusable);
    assert_eq!(w.tab_index, None);
    assert_eq!(w.label, None);
    let c = create_cursor(&mut rt, "h", 1, 2, 3);
    assert!(load(&mut rt, c).and_then(|t| Widget::load(&t)).is_none());
    assert!(load(&mut rt, id).and_then(|t| Cursor::load(&t)).is_none());
}
