use thingos::abi::{SymbolMap, Value};
use thingos::canon::{
    Symbol, ACK, DETAILS, DST, FIELDS, ID, KIND, LEVEL, MESSAGE, NAME, NOTIFICATION, PERSIST, PREDICATE, REVISION,
    SCOPE, SRC, TARGET, TEXT,
};
use thingos::errors::{notify_error, raise_global_alert, with_notification};
use thingos::ipc::{edge_added, frame_ready, thing_created, window_buffer_updated};

fn text(m: &SymbolMap, key: u32) -> Option<String> {
    m.get(&Symbol(key)).and_then(|v| v.as_text()).map(|s| s.to_string())
}

fn bytes(m: &SymbolMap, key: u32) -> Option<Vec<u8>> {
    match m.get(&Symbol(key)) {
        Some(Value::Bytes(b)) => Some(b.clone()),
        _ => None,
    }
}

#[test]
fn local_error_notification_fields() {
    let m = notify_error("disk", "full");
    assert_eq!(m.len(), 6);
    assert_eq!(m.get(&Symbol(KIND)).and_then(|v| v.as_symbol()), Some(Symbol(NOTIFICATION)));
    assert_eq!(text(&m, LEVEL).as_deref(), Some("error"));
    assert_eq!(text(&m, MESSAGE).as_deref(), Some("disk"));
    assert_eq!(text(&m, DETAILS).as_deref(), Some("full"));
    assert_eq!(text(&m, SCOPE).as_deref(), Some("local"));
    assert_eq!(m.get(&Symbol(ACK)).and_then(|v| v.as_bool()), Some(false));
    assert!(m.get(&Symbol(PERSIST)).is_none());
}

#[test]
fn global_alert_persists() {
    let m = raise_global_alert("panic", "boot");
    assert_eq!(m.len(), 7);
    assert_eq!(text(&m, SCOPE).as_deref(), Some("global"));
    assert_eq!(m.get(&Symbol(PERSIST)).and_then(|v| v.as_bool()), Some(true));
    assert_eq!(m.get(&Symbol(ACK)).and_then(|v| v.as_bool()), Some(false));
    assert_eq!(text(&m, MESSAGE).as_deref(), Some("panic"));
}

#[test]
fn with_notification_keeps_success() {
    let (v, n) = with_notification::<u32>("load", Ok(5));
    assert_eq!(v, Some(5));
    assert!(n.is_none());
}

#[test]
fn with_notification_reports_failure() {
    let (v, n) = with_notification::<u32>("load", Err("NotFound".to_string()));
    assert_eq!(v, None);
    let m = n.expect("a notification");
    assert_eq!(text(&m, MESSAGE).as_deref(), Some("load"));
    assert_eq!(text(&m, DETAILS).as_deref(), Some("NotFound"));
    assert_eq!(text(&m, SCOPE).as_deref(), Some("local"));
}

#[test]
fn event_payloads() {
    let mut fields = SymbolMap::new();
    fields.insert(Symbol(NAME), Value::text("w"));
    let t = thing_created(1, Symbol(7), 3, fields);
    assert_eq!(t.get(&Symbol(ID)).and_then(|v| v.as_uuid()), Some(1));
    assert_eq!(t.get(&Symbol(KIND)).and_then(|v| v.as_symbol()), Some(Symbol(7)));
    assert_eq!(t.get(&Symbol(REVISION)).and_then(|v| v.as_u64()), Some(3));
    let inner = t.get(&Symbol(FIELDS)).and_then(|v| v.as_map()).expect("fields");
    assert_eq!(text(inner, NAME).as_deref(), Some("w"));

    let e = edge_added(1, Symbol(9), 2, 4);
    assert_eq!(e.get(&Symbol(SRC)).and_then(|v| v.as_uuid()), Some(1));
    assert_eq!(e.get(&Symbol(DST)).and_then(|v| v.as_uuid()), Some(2));
    assert_eq!(e.get(&Symbol(PREDICATE)).and_then(|v| v.as_symbol()), Some(Symbol(9)));
    assert_eq!(e.get(&Symbol(REVISION)).and_then(|v| v.as_u64()), Some(4));

    let f = frame_ready(10, 11, 12, b"hi");
    assert_eq!(f.get(&Symbol(SRC)).and_then(|v| v.as_uuid()), Some(10));
    assert_eq!(f.get(&Symbol(DST)).and_then(|v| v.as_uuid()), Some(11));
    assert_eq!(f.get(&Symbol(TARGET)).and_then(|v| v.as_uuid()), Some(12));
    assert_eq!(bytes(&f, TEXT), Some(b"hi".to_vec()));

    let w = window_buffer_updated(20, 21, 5, b"abc");
    assert_eq!(w.get(&Symbol(SRC)).and_then(|v| v.as_uuid()), Some(20));
    assert_eq!(w.get(&Symbol(TARGET)).and_then(|v| v.as_uuid()), Some(21));
    assert_eq!(w.get(&Symbol(REVISION)).and_then(|v| v.as_u64()), Some(5));
    assert_eq!(bytes(&w, TEXT), Some(b"abc".to_vec()));
    assert_eq!(w.len(), 4);
}
