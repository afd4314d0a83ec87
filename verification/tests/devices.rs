use thingos::abi::{SymbolMap, Value};
use thingos::canon::Symbol;
use thingos::driver_runtime::{
    key_payload, mouse_payload, DriverContext, FramebufferInfo, KeyPress, KeyboardDriver,
    MouseDriver, MouseEvent, SerialDriver,
};
use thingos::kui::{ComposeTable, GlyphTrail, KeyMapEntry, Modifiers, TextBox, TextRegion};
use thingos::userland::{blend, simple_uuid};

fn keyboard() -> KeyboardDriver {
    let mut ctx = DriverContext::new();
    KeyboardDriver::init(&mut ctx, Some(1)).unwrap()
}

#[test]
fn keyboard_reports_letters_with_shift() {
    let mut kb = keyboard();
    let presses = kb.poll(&[0x1e, 0x9e, 0x2a, 0x1e, 0xaa, 0x1e]);
    let keys: Vec<Option<Symbol>> = presses.iter().map(|p| p.key).collect();
    assert_eq!(keys, vec![Some(Symbol('a' as u32)), Some(Symbol('A' as u32)), Some(Symbol('a' as u32))]);
    assert_eq!(presses[0].scancode, 0x1e);
}

#[test]
fn keyboard_caps_lock_and_digits() {
    let mut kb = keyboard();
    let p = kb.poll(&[0x3a, 0x10, 0x02, 0x2a, 0x02]);
    let keys: Vec<Option<Symbol>> = p.iter().map(|p| p.key).collect();
    assert_eq!(
        keys,
        vec![Some(Symbol('Q' as u32)), Some(Symbol('1' as u32)), Some(Symbol('!' as u32))]
    );
}

#[test]
fn keyboard_dead_keys_compose() {
    let mut kb = keyboard();
    let p = kb.poll(&[0x28, 0x12]);
    assert_eq!(p.len(), 1);
    assert_eq!(p[0].key, Some(Symbol('\u{e9}' as u32)));
    let p = kb.poll(&[0x2a, 0x1a, 0x16, 0xaa]);
    assert_eq!(p[0].key, Some(Symbol('\u{dc}' as u32)));
    let p = kb.poll(&[0x28, 0x2d]);
    assert_eq!(p[0].key, Some(Symbol('x' as u32)));
}

#[test]
fn keyboard_special_and_extended_keys() {
    let mut kb = keyboard();
    let p = kb.poll(&[0x1c, 0x3b, 0xe0, 0x47, 0xe0, 0x53, 0x01]);
    let keys: Vec<Option<Symbol>> = p.iter().map(|p| p.key).collect();
    assert_eq!(
        keys,
        vec![
            Some(Symbol(0x454e00)),
            Some(Symbol(0xF001)),
            Some(Symbol(0x484d00)),
            Some(Symbol(0x444c00)),
            Some(Symbol(0x455300))
        ]
    );
}

#[test]
fn key_payload_fields() {
    let m = key_payload(&KeyPress { scancode: 0x1e, key: Some(Symbol(0x61)) });
    assert_eq!(m.len(), 2);
    assert!(m.get(&Symbol(0x53434e)).unwrap().same_as(&Value::U64(0x1e)));
    assert!(m.get(&Symbol(0x4b4559)).unwrap().same_as(&Value::Symbol(Symbol(0x61))));
}

#[test]
fn mouse_packets_decode() {
    let mut ctx = DriverContext::new();
    let mut m = MouseDriver::init(&mut ctx, Some(2)).unwrap();
    let ev = m.poll(&[0x00, 0x09, 0x05, 0xfb, 0x48, 0x01, 0x01]);
    assert_eq!(ev.len(), 1);
    assert_eq!(ev[0], MouseEvent { dx: 5, dy: 5, left: true, right: false, middle: false });
    let ev = m.poll(&[0x0e, 0x80, 0x80]);
    assert_eq!(ev[0], MouseEvent { dx: -128, dy: -128, left: false, right: true, middle: true });
    let payload = mouse_payload(&ev[0]);
    assert!(payload.get(&Symbol(0x42544e)).unwrap().same_as(&Value::U64(6)));
    assert!(payload.get(&Symbol(0x445820)).unwrap().same_as(&Value::I64(-128)));
}

#[test]
fn framebuffer_info_reads_le_words() {
    let mut b = Vec::new();
    for v in [800u32, 600, 3200, 32] {
        b.extend_from_slice(&v.to_le_bytes());
    }
    let info = FramebufferInfo::from_device(&b).unwrap();
    assert_eq!((info.width, info.height, info.pitch, info.bpp), (800, 600, 3200, 32));
    assert!(FramebufferInfo::from_device(&b[..15]).is_none());
}

#[test]
fn drivers_start_only_when_opened() {
    let mut ctx = DriverContext::new();
    assert!(SerialDriver::init(&mut ctx, None).is_none());
    let s = SerialDriver::init(&mut ctx, Some(4)).unwrap();
    assert_eq!(s.dev.0, 4);
}

#[test]
fn blend_mixes_channels() {
    assert_eq!(blend(0x00123456, 0xff000000), 0xff000000);
    assert_eq!(blend(0xff123456, 0x00000000), 0xff123456);
    assert_eq!(blend(0x80ff0000, 0xff0000ff), 0xff80007f);
}

#[test]
fn simple_uuid_is_stable() {
    let h: u64 = 0xcbf29ce484222325;
    assert_eq!(simple_uuid(b""), ((h as u128) << 64) | (h as u128));
    assert_eq!(simple_uuid(b"/"), simple_uuid(b"/"));
    assert_ne!(simple_uuid(b"a"), simple_uuid(b"b"));
}

#[test]
fn textbox_composes_and_wraps() {
    let mut tb = TextBox::new(0, 0, 18, 100);
    tb.table.add('^', 'e', '\u{ea}');
    tb.insert_char('^');
    tb.insert_char('e');
    tb.insert_char('x');
    assert_eq!(tb.content, vec!['\u{ea}', 'x']);
    assert_eq!((tb.cursor_col, tb.cursor_row), (0, 1));
    tb.insert_char('~');
    tb.insert_char('q');
    assert_eq!(tb.content, vec!['\u{ea}', 'x', '~', 'q']);
    let g = tb.draw();
    assert_eq!(g.len(), 4);
    assert_eq!((g[2].x, g[2].y), (18, 0));
    assert_eq!((g[3].x, g[3].y), (0, 18));
    tb.scroll_down();
    let g = tb.draw();
    assert_eq!(g.len(), 1);
    assert_eq!((g[0].x, g[0].y, g[0].ch), (0, 0, 'q'));
    tb.scroll_up();
    tb.scroll_up();
    assert_eq!(tb.scroll_offset, 0);
}

#[test]
fn text_region_maps_keys() {
    let mut r = TextRegion::new(10, 10, 100, 100);
    let e = KeyMapEntry { normal: Some('a'), shifted: Some('A'), altgr: None, shift_altgr: None };
    assert_eq!(r.insert_key(30, Some(e), &Modifiers { shift: true, altgr: false }), Some('A'));
    assert_eq!(r.insert_key(30, Some(e), &Modifiers { shift: false, altgr: true }), None);
    assert_eq!(r.insert_key(28, None, &Modifiers { shift: false, altgr: false }), Some('\n'));
    assert_eq!(r.insert_key(200, None, &Modifiers { shift: false, altgr: false }), None);
    assert_eq!(r.textbox.content, vec!['A', '\n']);
    let (frame, glyphs) = r.draw();
    assert_eq!((frame.x, frame.width, frame.color), (10, 100, 0x222244));
    assert_eq!(glyphs[0].x, 14);
}

#[test]
fn glyph_trail_draws_and_composes() {
    let mut t = GlyphTrail::new(0, 0);
    let g = t.draw_block(640, Some('a'));
    assert_eq!(g.len(), 1);
    t.advance();
    assert!(t.draw_block(640, Some('`')).is_empty());
    let g = t.draw_block(640, Some('e'));
    assert_eq!(g.len(), 2);
    assert_eq!((g[0].ch, g[1].ch, g[1].x), ('`', 'e', 18));
    assert_eq!(t.cursor, 2);
    let mut c = ComposeTable::new();
    c.add('`', 'e', '\u{e8}');
    assert_eq!(c.try_compose('`', 'e'), Some('\u{e8}'));
    assert_eq!(c.try_compose('`', 'z'), None);
    let _ = SymbolMap::new();
}

#[test]
fn a_cursor_past_the_width_wraps_on_the_next_character() {
    let mut tb = TextBox::new(0, 0, 18, 36);
    tb.cursor_col = 7;
    tb.insert_char('x');
    assert_eq!(tb.cursor_col, 0);
    assert_eq!(tb.cursor_row, 1);
    assert_eq!(tb.content, vec!['x']);
}

#[test]
fn scrolling_changes_only_the_offset() {
    let mut tb = TextBox::new(1, 2, 90, 36);
    tb.insert_char('a');
    tb.scroll_down();
    assert_eq!(tb.scroll_offset, 1);
    tb.scroll_up();
    tb.scroll_up();
    assert_eq!(tb.scroll_offset, 0);
    assert_eq!(tb.cursor_col, 1);
    assert_eq!(tb.content, vec!['a']);
    assert_eq!((tb.x, tb.y, tb.width, tb.height), (1, 2, 90, 36));
}
