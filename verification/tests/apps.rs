use thingos::abi::{SymbolMap, Value};
use thingos::apps::AppState;
use thingos::canon::{
    Symbol, BITMAP, DIRTY, HEIGHT, INIT, NAME, REVISION, SRC, STATUS, TARGET, TEXT, TITLE, VISIBLE, WIDTH, X, Y, Z,
};
use thingos::thingable::Window;
use thingos::userland::simple_uuid;

fn get<'a>(m: &'a SymbolMap, key: u32) -> Option<&'a Value> {
    m.get(&Symbol(key))
}

#[test]
fn window_ids_come_from_title_and_count() {
    let mut state = AppState::new(7, 3);
    let (a, _) = state.create_window("Clock");
    let (b, _) = state.create_window("Clock");
    assert_eq!(a.window_id(), simple_uuid(b"window-Clock-0"));
    assert_eq!(a.pixmap_id(), simple_uuid(b"pixmap-Clock-0"));
    assert_eq!(b.window_id(), simple_uuid(b"window-Clock-1"));
    assert_eq!(b.pixmap_id(), simple_uuid(b"pixmap-Clock-1"));
    assert_ne!(a.window_id(), b.window_id());
    assert_eq!(state.compositor_id(), 7);
    assert_eq!(state.app_id(), 3);
}

#[test]
fn windows_at_origin_cascade() {
    let mut state = AppState::new(1, 0);
    let (h0, f0) = state.create_window("One");
    let (_, f1) = state.create_window("Two");
    assert_eq!(get(&f0, X).and_then(|v| v.as_u64()), Some(0));
    assert_eq!(get(&f0, Y).and_then(|v| v.as_u64()), Some(0));
    assert_eq!(get(&f0, Z).and_then(|v| v.as_i64()), Some(0));
    assert_eq!(get(&f1, X).and_then(|v| v.as_u64()), Some(24));
    assert_eq!(get(&f1, Y).and_then(|v| v.as_u64()), Some(24));
    assert_eq!(get(&f1, Z).and_then(|v| v.as_i64()), Some(1));
    assert_eq!(get(&f0, WIDTH).and_then(|v| v.as_u64()), Some(320));
    assert_eq!(get(&f0, HEIGHT).and_then(|v| v.as_u64()), Some(200));
    assert_eq!(get(&f0, TITLE).and_then(|v| v.as_text()), Some("One"));
    assert_eq!(get(&f0, NAME).and_then(|v| v.as_text()), Some("One"));
    assert_eq!(get(&f0, TARGET).and_then(|v| v.as_uuid()), Some(h0.pixmap_id()));
    assert_eq!(get(&f0, STATUS).and_then(|v| v.as_symbol()), Some(Symbol(INIT)));
    assert_eq!(get(&f0, VISIBLE).and_then(|v| v.as_bool()), Some(true));
}

#[test]
fn placed_windows_keep_their_position() {
    let mut state = AppState::new(1, 0);
    let w = Window { id: 0, width: 10, height: 20, title: "P".to_string(), x: 5, y: 6, z: 9, visible: false, target: None };
    let (_, f) = state.create_window_with(w);
    assert_eq!(get(&f, X).and_then(|v| v.as_u64()), Some(5));
    assert_eq!(get(&f, Y).and_then(|v| v.as_u64()), Some(6));
    assert_eq!(get(&f, Z).and_then(|v| v.as_i64()), Some(0));
    assert_eq!(get(&f, VISIBLE).and_then(|v| v.as_bool()), Some(true));
    assert_eq!(get(&f, WIDTH).and_then(|v| v.as_u64()), Some(10));
}

#[test]
fn flush_hands_text_and_bitmap_to_the_pixmap() {
    let mut state = AppState::new(1, 0);
    let (h, _) = state.create_window("Hello");
    state.begin_tick();
    state.clear_window(&h);
    state.draw_text(&h, "Hello at 4\n");
    state.draw_text(&h, "more");
    state.draw_bitmap(&h, &[1, 2, 3]);
    let out = state.flush(4);
    assert_eq!(out.len(), 1);
    let s = &out[0];
    assert_eq!(s.pixmap, h.pixmap_id());
    assert_eq!(s.window, h.window_id());
    assert_eq!(get(&s.payload, SRC).and_then(|v| v.as_uuid()), Some(h.window_id()));
    assert_eq!(get(&s.payload, TARGET).and_then(|v| v.as_uuid()), Some(h.pixmap_id()));
    assert_eq!(get(&s.payload, REVISION).and_then(|v| v.as_u64()), Some(4));
    assert_eq!(get(&s.payload, DIRTY).and_then(|v| v.as_bool()), Some(true));
    assert_eq!(get(&s.payload, VISIBLE).and_then(|v| v.as_bool()), Some(true));
    match get(&s.payload, TEXT) {
        Some(Value::Bytes(b)) => assert_eq!(b.as_slice(), b"Hello at 4\nmore"),
        other => panic!("unexpected text {:?}", other),
    }
    match get(&s.payload, BITMAP) {
        Some(Value::Bytes(b)) => assert_eq!(b.as_slice(), &[1u8, 2, 3]),
        other => panic!("unexpected bitmap {:?}", other),
    }
    assert_eq!(s.payload.len(), 7);
}

#[test]
fn flush_consumes_bitmaps_and_text() {
    let mut state = AppState::new(1, 0);
    let (h, _) = state.create_window("W");
    state.draw_text(&h, "x");
    state.draw_bitmap(&h, &[9]);
    let first = state.flush(1);
    assert_eq!(first.len(), 1);
    let again = state.flush(2);
    assert!(again.is_empty());
    state.draw_text(&h, "y");
    let third = state.flush(3);
    assert_eq!(third.len(), 1);
    assert!(get(&third[0].payload, BITMAP).is_none());
    match get(&third[0].payload, TEXT) {
        Some(Value::Bytes(b)) => assert_eq!(b.as_slice(), b"y"),
        other => panic!("unexpected text {:?}", other),
    }
}

#[test]
fn bitmap_without_text_waits_for_a_tick_with_text() {
    let mut state = AppState::new(1, 0);
    let (h, _) = state.create_window("W");
    state.draw_bitmap(&h, &[5, 5]);
    assert!(state.flush(1).is_empty());
    state.clear_window(&h);
    let out = state.flush(2);
    assert_eq!(out.len(), 1);
    match get(&out[0].payload, BITMAP) {
        Some(Value::Bytes(b)) => assert_eq!(b.as_slice(), &[5u8, 5]),
        other => panic!("unexpected bitmap {:?}", other),
    }
    match get(&out[0].payload, TEXT) {
        Some(Value::Bytes(b)) => assert!(b.is_empty()),
        other => panic!("unexpected text {:?}", other),
    }
}

#[test]
fn surfaces_come_in_window_id_order() {
    let mut state = AppState::new(1, 0);
    let (a, _) = state.create_window("A");
    let (b, _) = state.create_window("B");
    state.draw_text(&b, "b");
    state.draw_text(&a, "a");
    let out = state.flush(0);
    assert_eq!(out.len(), 2);
    assert!(out[0].window < out[1].window);
    let mut ids = vec![a.window_id(), b.window_id()];
    ids.sort();
    assert_eq!(out[0].window, ids[0]);
    assert_eq!(out[1].window, ids[1]);
}

#[test]
fn begin_tick_drops_text() {
    let mut state = AppState::new(1, 0);
    let (h, _) = state.create_window("W");
    state.draw_text(&h, "x");
    state.begin_tick();
    assert!(state.flush(0).is_empty());
}
