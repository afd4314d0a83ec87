use thingos::raster::{argb, paint_all, Paint, Pixel, Rect};
use thingos::widget_abi::{InputEvent, WidgetEvent};
use thingos::widgets::launcher_entry::LauncherEntryWidget;
use thingos::widgets::radio_button::RadioButtonWidget;
use thingos::widgets::button::{ButtonAction, ButtonWidget, IconPath, SHOW_LABEL};
use thingos::abi::{SymbolMap, Value};
use thingos::canon::{Symbol, TARGET, TEXT};
use thingos::layout::ICON_NAME;
use thingos::widget_host::{admission, button_size, buffer_len, hosted_kind, notification_widget, HostedKind, WidgetHost, FOCUSED, MOUSE_DOWN, MOUSE_X, MOUSE_Y};
use thingos::records::GraphThing;
use thingos::widgets::image::ImageWidget;
use thingos::widgets::dropdown::{DropdownWidget, ITEM_VALUE, OPTIONS};
use thingos::symset::SymbolSet;
use thingos::widgets::listbox::{IconSet, ListboxDefaultWidget, ITEM};
use thingos::widgets::scrollbar_thumb::{self, ScrollDrag, ScrollbarThumbWidget, ThumbColors};

#[test]
fn fill_paints_only_its_box() {
    let mut fb = vec![0u8; 4 * 4 * 3];
    let ops = vec![Paint::Fill { x0: 1, y0: 1, x1: 3, y1: 2, pixel: Pixel(9, 8, 7, 6) }];
    paint_all(&mut fb, 4, &ops);
    for slot in 0..12usize {
        let px = &fb[slot * 4..slot * 4 + 4];
        if slot == 5 || slot == 6 {
            assert_eq!(px, &[9, 8, 7, 6]);
        } else {
            assert_eq!(px, &[0, 0, 0, 0]);
        }
    }
}

#[test]
fn argb_writes_red_green_blue_alpha() {
    assert_eq!(argb(0xff44_3322), Pixel(0x44, 0x33, 0x22, 0xff));
}

#[test]
fn launcher_entry_fills_its_rect() {
    let rect = Rect { x: 0, y: 0, width: 3, height: 2 };
    let mut fb = vec![0u8; 3 * 2 * 4];
    let state = LauncherEntryWidget::init();
    LauncherEntryWidget::draw(&state, &mut fb, rect);
    for slot in 0..6usize {
        assert_eq!(&fb[slot * 4..slot * 4 + 4], &[0x44, 0x44, 0x44, 0xff]);
    }
}

#[test]
fn radio_button_toggles_on_release_after_press() {
    let mut state = RadioButtonWidget::init(None);
    assert!(!state.selected);
    assert_eq!(state.label, "Radio");
    RadioButtonWidget::handle_event(&mut state, WidgetEvent::Input(InputEvent::MouseUp { x: 0, y: 0, button: 0 }));
    assert!(!state.selected);
    RadioButtonWidget::handle_event(&mut state, WidgetEvent::Input(InputEvent::MouseDown { x: 0, y: 0, button: 0 }));
    assert!(state.pressed);
    RadioButtonWidget::handle_event(&mut state, WidgetEvent::Input(InputEvent::MouseUp { x: 0, y: 0, button: 0 }));
    assert!(state.selected);
    assert!(!state.pressed);
}

#[test]
fn radio_button_draws_grey_background() {
    let rect = Rect { x: 0, y: 0, width: 20, height: 16 };
    let mut fb = vec![0u8; 20 * 16 * 4];
    let state = RadioButtonWidget::init(None);
    RadioButtonWidget::draw(&state, &mut fb, rect);
    assert_eq!(&fb[0..4], &[0xc0, 0xc0, 0xc0, 0xff]);
    let last = fb.len() - 4;
    assert_eq!(&fb[last..], &[0xc0, 0xc0, 0xc0, 0xff]);
}

#[test]
fn button_defaults_to_btn_label() {
    let state = ButtonWidget::init(None, None);
    assert_eq!(state.label, "Btn");
    assert_eq!(state.target, "");
    assert!(state.show_label);
    assert!(state.icon.is_none());
    assert_eq!(ButtonWidget::intrinsic_size(&state, 10), (40, 24));
}

#[test]
fn button_release_after_press_launches_target() {
    let mut props = SymbolMap::new();
    props.insert(Symbol(TEXT), Value::text("Go"));
    props.insert(Symbol(TARGET), Value::text("editor"));
    let mut state = ButtonWidget::init(Some(&props), None);
    let none = ButtonWidget::handle_event(&mut state, WidgetEvent::Input(InputEvent::MouseUp { x: 0, y: 0, button: 0 }));
    assert!(none.is_empty());
    let none = ButtonWidget::handle_event(&mut state, WidgetEvent::Input(InputEvent::MouseDown { x: 0, y: 0, button: 0 }));
    assert!(none.is_empty() && state.pressed);
    let acts = ButtonWidget::handle_event(&mut state, WidgetEvent::Input(InputEvent::MouseUp { x: 0, y: 0, button: 0 }));
    assert!(!state.pressed);
    assert_eq!(acts.len(), 1);
    assert!(matches!(&acts[0], ButtonAction::Launch { .. }));
}

#[test]
fn button_without_label_is_icon_wide() {
    let mut props = SymbolMap::new();
    props.insert(Symbol(SHOW_LABEL), Value::Bool(false));
    props.insert(Symbol(ICON_NAME), Value::text("gear"));
    let icon = IconPath { data: String::from("M0 0"), width: 24, height: 24 };
    let state = ButtonWidget::init(Some(&props), Some(icon));
    assert!(!state.show_label);
    assert_eq!(ButtonWidget::intrinsic_size(&state, 10), (32, 32));
    let rect = Rect { x: 0, y: 0, width: 40, height: 30 };
    assert_eq!(ButtonWidget::icon_origin(&state, rect), Some((8, 3)));
}

#[test]
fn button_frame_has_bevel() {
    let rect = Rect { x: 0, y: 0, width: 6, height: 5 };
    let mut fb = vec![0u8; 6 * 5 * 4];
    let state = ButtonWidget::init(None, None);
    let ops = ButtonWidget::frame_ops(&state, rect);
    paint_all(&mut fb, 6, &ops);
    let px = |x: usize, y: usize| fb[(y * 6 + x) * 4..(y * 6 + x) * 4 + 4].to_vec();
    assert_eq!(px(0, 0), vec![0, 0, 0, 0xff]);
    assert_eq!(px(1, 1), vec![0xff, 0xff, 0xff, 0xff]);
    assert_eq!(px(4, 3), vec![0x40, 0x40, 0x40, 0xff]);
    assert_eq!(px(2, 2), vec![0xc0, 0xc0, 0xc0, 0xff]);
    assert_eq!(px(5, 4), vec![0, 0, 0, 0xff]);
}

#[test]
fn focused_button_draws_dotted_ring() {
    let rect = Rect { x: 0, y: 0, width: 10, height: 10 };
    let mut props = SymbolMap::new();
    props.insert(Symbol(SHOW_LABEL), Value::Bool(false));
    let mut state = ButtonWidget::init(Some(&props), None);
    state.focused = true;
    let ops = ButtonWidget::overlay_ops(&state, rect);
    let mut fb = vec![0u8; 10 * 10 * 4];
    paint_all(&mut fb, 10, &ops);
    let px = |x: usize, y: usize| fb[(y * 10 + x) * 4..(y * 10 + x) * 4 + 4].to_vec();
    assert_eq!(px(3, 3), vec![0, 0, 0, 0xff]);
    assert_eq!(px(4, 3), vec![0, 0, 0, 0]);
    assert_eq!(px(5, 3), vec![0, 0, 0, 0xff]);
    assert_eq!(px(3, 6), vec![0, 0, 0, 0xff]);
    assert_eq!(px(4, 6), vec![0, 0, 0, 0]);
    assert_eq!(px(6, 5), vec![0, 0, 0, 0xff]);
}

fn thing_of(id: u128, kind: u32, fields: SymbolMap) -> GraphThing {
    GraphThing { id, kind: Symbol(kind), labels: SymbolSet::new(), fields, owner: 0, revision: 1 }
}

#[test]
fn host_kinds_by_name() {
    assert_eq!(hosted_kind(Some("button")), HostedKind::Button);
    assert_eq!(hosted_kind(Some("toolbar_button")), HostedKind::Button);
    assert_eq!(hosted_kind(Some("list")), HostedKind::Listbox);
    assert_eq!(hosted_kind(Some("select")), HostedKind::Dropdown);
    assert_eq!(hosted_kind(Some("mystery")), HostedKind::Launcher);
    assert_eq!(hosted_kind(None), HostedKind::Launcher);
}

#[test]
fn host_admits_buttons_32_high() {
    let mut f = SymbolMap::new();
    f.insert(Symbol(0x574b00), Value::text("button"));
    let a = admission(&f);
    assert_eq!((a.kind, a.width, a.height), (HostedKind::Button, 200, 32));
    let (w, h, update) = button_size(&a, 40, 24);
    assert_eq!((w, h), (40, 24));
    assert!(update.is_some());
    let mut g = SymbolMap::new();
    g.insert(Symbol(0x574454), Value::U64(120));
    g.insert(Symbol(0x484754), Value::U64(20));
    let b = admission(&g);
    assert_eq!((b.kind, b.width, b.height), (HostedKind::Launcher, 120, 20));
    let (w, h, update) = button_size(&b, 40, 24);
    assert_eq!((w, h), (120, 24));
    assert!(update.is_some());
    assert_eq!(buffer_len(3, 2), 24);
    assert_eq!(buffer_len(u32::MAX, u32::MAX), u32::MAX as usize * 4);
}

#[test]
fn global_notification_asks_for_a_dialog() {
    let mut f = SymbolMap::new();
    f.insert(Symbol(0x534350), Value::text("global"));
    let id: u128 = 0x1234;
    let (wid, fields) = notification_widget(&thing_of(id, 0x4e5446, f)).expect("widget");
    let expected = uuid::Uuid::new_v5(&uuid::Uuid::NAMESPACE_OID, &id.to_be_bytes()).as_u128();
    assert_eq!(wid, expected);
    assert!(fields.get(&Symbol(0x574454)).unwrap().same_as(&Value::U64(400)));
    assert!(fields.get(&Symbol(0x424453)).unwrap().same_as(&Value::Uuid(id)));
    let mut g = SymbolMap::new();
    g.insert(Symbol(0x41434b), Value::Bool(true));
    assert!(notification_widget(&thing_of(id, 0x4e5446, g)).is_none());
    let (_, toast) = notification_widget(&thing_of(id, 0x4e5446, SymbolMap::new())).expect("toast");
    assert!(toast.get(&Symbol(0x484754)).unwrap().same_as(&Value::U64(80)));
}

#[test]
fn host_turns_pointer_fields_into_input() {
    let mut host = WidgetHost::new();
    host.host(7, HostedKind::Button, 40, 32);
    let mut down = SymbolMap::new();
    down.insert(Symbol(MOUSE_DOWN), Value::Bool(true));
    down.insert(Symbol(MOUSE_X), Value::I64(3));
    down.insert(Symbol(MOUSE_Y), Value::I64(4));
    let (resized, ev) = host.on_widget(7, &down);
    assert!(!resized);
    assert_eq!(ev, Some(WidgetEvent::Input(InputEvent::MouseDown { x: 3, y: 4, button: 1 })));
    assert_eq!(host.focused, Some(7));
    let mut up = SymbolMap::new();
    up.insert(Symbol(0x574454), Value::U64(50));
    let (resized, ev) = host.on_widget(7, &up);
    assert!(resized);
    assert_eq!(ev, Some(WidgetEvent::Input(InputEvent::MouseUp { x: 0, y: 0, button: 1 })));
    assert_eq!(host.widgets[0].width, 50);
    let mut key = SymbolMap::new();
    key.insert(Symbol(0x4b4559), Value::Symbol(Symbol(0x454e00)));
    key.insert(Symbol(0x44574e), Value::Bool(true));
    assert_eq!(host.on_key(&key), Some((7, WidgetEvent::Input(InputEvent::KeyDown { key: 0x454e00 }))));
    let mut unfocus = SymbolMap::new();
    unfocus.insert(Symbol(FOCUSED), Value::Bool(false));
    host.on_widget(7, &unfocus);
    assert_eq!(host.focused, None);
    assert_eq!(host.on_key(&key), None);
}

#[test]
fn image_without_bytes_is_red() {
    let state = ImageWidget::init(None);
    let mut fb = vec![7u8; 2 * 2 * 4 + 2];
    ImageWidget::draw(&state, &mut fb, Rect { x: 0, y: 0, width: 2, height: 2 });
    for slot in 0..4usize {
        assert_eq!(&fb[slot * 4..slot * 4 + 4], &[0x00, 0x00, 0xff, 0xff]);
    }
    assert_eq!(&fb[16..], &[7, 7]);
}

#[test]
fn image_rows_are_copied_up_to_the_rect() {
    let mut props = SymbolMap::new();
    props.insert(Symbol(0x494400), Value::Bytes((1u8..=16).collect()));
    props.insert(Symbol(0x574454), Value::U64(2));
    props.insert(Symbol(0x484754), Value::U64(2));
    let state = ImageWidget::init(Some(&props));
    assert_eq!((state.width, state.height, state.image_data.len()), (2, 2, 16));
    let mut fb = vec![0u8; 3 * 1 * 4];
    ImageWidget::draw(&state, &mut fb, Rect { x: 0, y: 0, width: 3, height: 1 });
    assert_eq!(fb, vec![1, 2, 3, 4, 5, 6, 7, 8, 0, 0, 0, 0]);
}

fn label_of(state: &thingos::widgets::dropdown::State, i: usize) -> String {
    state.options[i].label.clone()
}

#[test]
fn dropdown_starts_with_default_options() {
    let (state, writes) = DropdownWidget::init(9, 20, None);
    assert!(writes.is_empty());
    assert_eq!(state.options.len(), 4);
    assert_eq!(label_of(&state, 0), "None");
    assert_eq!(label_of(&state, 3), "Zoom");
    assert_eq!(state.selected_index, 0);
    assert_eq!(state.collapsed_height, 20);
    assert!(!state.open);
}

#[test]
fn dropdown_opens_moves_and_selects() {
    let (mut state, _) = DropdownWidget::init(9, 20, None);
    let w = DropdownWidget::handle_event(&mut state, None, WidgetEvent::Input(InputEvent::MouseDown { x: 1, y: 1, button: 1 }));
    assert!(state.open && state.pressed);
    assert_eq!(state.hovered_index, Some(0));
    assert_eq!(w.len(), 1);
    assert!(w[0].props.get(&Symbol(0x484754)).unwrap().same_as(&Value::U64(20 + 4 * 28)));
    let w = DropdownWidget::handle_event(&mut state, None, WidgetEvent::Input(InputEvent::KeyDown { key: 0x414400 }));
    assert_eq!(state.hovered_index, Some(1));
    assert_eq!(w.len(), 1);
    let w = DropdownWidget::handle_event(&mut state, None, WidgetEvent::Input(InputEvent::KeyDown { key: 0x454e00 }));
    assert!(!state.open);
    assert_eq!(state.selected_index, 1);
    assert_eq!(w.len(), 3);
    assert!(w[1].props.get(&Symbol(0x545854)).unwrap().same_as(&Value::text("Slide")));
    assert!(w[2].props.get(&Symbol(0x484754)).unwrap().same_as(&Value::U64(20)));
}

#[test]
fn dropdown_reads_options_and_binding() {
    let mut props = SymbolMap::new();
    props.insert(Symbol(OPTIONS), Value::List(vec![Value::text("a"), Value::I64(-5), Value::Bool(true), Value::Null]));
    props.insert(Symbol(0x424453), Value::Uuid(77));
    props.insert(Symbol(0x534958), Value::I64(9));
    let (mut state, _) = DropdownWidget::init(9, 20, Some(&props));
    assert_eq!(state.options.len(), 3);
    assert_eq!(label_of(&state, 1), "-5");
    assert_eq!(label_of(&state, 2), "true");
    assert_eq!(state.selected_index, 2);
    assert_eq!(state.binds, Some(77));
    let w = DropdownWidget::handle_event(&mut state, Some(&props), WidgetEvent::Input(InputEvent::KeyDown { key: 0x484d00 }));
    assert_eq!(state.selected_index, 0);
    assert_eq!(w.len(), 2);
    assert_eq!(w[1].node, 77);
    assert!(w[1].props.get(&Symbol(ITEM_VALUE)).unwrap().same_as(&Value::text("a")));
}

#[test]
fn dropdown_draws_bevelled_box() {
    let (state, _) = DropdownWidget::init(9, 20, None);
    let rect = Rect { x: 0, y: 0, width: 40, height: 20 };
    let mut fb = vec![0u8; 40 * 20 * 4];
    let w = DropdownWidget::draw(&state, None, &mut fb, rect);
    assert!(w.is_empty());
    let px = |x: usize, y: usize| fb[(y * 40 + x) * 4..(y * 40 + x) * 4 + 4].to_vec();
    assert_eq!(px(0, 0), vec![0xff, 0xff, 0xff, 0xff]);
    assert_eq!(px(0, 19), vec![0x9c, 0xa3, 0xb2, 0xff]);
    assert_eq!(px(3, 18), vec![0xf2, 0xf2, 0xf2, 0xff]);
    assert_eq!(px(20, 5), vec![0xd8, 0xdd, 0xe8, 0xff]);
    assert_eq!(px(26, 10), vec![0x60, 0x60, 0x60, 0xff]);
}

#[test]
fn icon_segments_are_drawn_as_bresenham_lines() {
    let rect = Rect { x: 0, y: 0, width: 6, height: 5 };
    let ops = ButtonWidget::line_ops(rect, 0, 0, 4, 2, Pixel(1, 2, 3, 4));
    let mut fb = vec![0u8; 6 * 5 * 4];
    paint_all(&mut fb, 6, &ops);
    let lit: Vec<(usize, usize)> = (0..30usize).filter(|s| fb[s * 4] == 1).map(|s| (s % 6, s / 6)).collect();
    assert_eq!(lit, vec![(0, 0), (1, 1), (2, 1), (3, 2), (4, 2)]);
    let ops = ButtonWidget::line_ops(rect, 5, 4, 5, 9, Pixel(9, 9, 9, 9));
    let mut fb = vec![0u8; 6 * 5 * 4];
    paint_all(&mut fb, 6, &ops);
    let lit: Vec<usize> = (0..30usize).filter(|s| fb[s * 4] == 9).collect();
    assert_eq!(lit, vec![29]);
}

fn listbox_item(parent: u128, label: Option<&str>, value: Option<&str>, icon: Option<&str>) -> GraphThing {
    let mut f = SymbolMap::new();
    f.insert(Symbol(thingos::fs::PARENT), Value::Uuid(parent));
    if let Some(t) = label {
        f.insert(Symbol(thingos::ui_graph::ITEM_LABEL), Value::text(t));
    }
    if let Some(t) = value {
        f.insert(Symbol(ITEM_VALUE), Value::text(t));
    }
    if let Some(t) = icon {
        f.insert(Symbol(ICON_NAME), Value::text(t));
    }
    thing_of(parent * 100 + 1, ITEM, f)
}

fn one_pixel_bmp(b: u8, g: u8, r: u8, a: u8) -> Vec<u8> {
    let mut bmp = vec![0u8; 58];
    bmp[10] = 54;
    bmp[18] = 1;
    bmp[22] = 1;
    bmp[28] = 32;
    bmp[54] = b;
    bmp[55] = g;
    bmp[56] = r;
    bmp[57] = a;
    bmp
}

fn no_icons() -> IconSet {
    IconSet { home: None, menu: None, settings: None, close: None }
}

fn listbox_binding(selected: i64) -> (SymbolMap, SymbolMap) {
    let mut binds = SymbolMap::new();
    binds.insert(Symbol(thingos::layout::BINDS), Value::Uuid(77));
    let mut bound = SymbolMap::new();
    bound.insert(Symbol(thingos::canon::SELECTED_INDEX), Value::I64(selected));
    (binds, bound)
}

#[test]
fn listbox_reads_its_own_items_and_binding() {
    let things = vec![
        listbox_item(5, Some("A"), Some("x"), Some("home")),
        listbox_item(6, Some("other"), None, None),
        listbox_item(5, None, None, Some("nothing")),
    ];
    let icons = IconSet { home: Some(vec![1, 2, 3]), menu: None, settings: None, close: None };
    let (binds, bound) = listbox_binding(1);
    let state = ListboxDefaultWidget::init(5, Some(&binds), Some(&bound), &things, &icons);
    assert_eq!(state.items.len(), 2);
    assert_eq!(state.items[0].label, "A");
    assert_eq!(state.items[0].value, "x");
    assert_eq!(state.items[0].icon_bmp, Some(vec![1, 2, 3]));
    assert_eq!(state.items[1].label, "?");
    assert_eq!(state.items[1].value, "");
    assert_eq!(state.items[1].icon_bmp, None);
    assert_eq!(state.selected_index, 1);
    assert_eq!(state.focused_index, 1);
    assert!(!state.has_focus);
    assert_eq!(state.value_node, Some(77));
    let unbound = ListboxDefaultWidget::init(5, None, Some(&bound), &things, &icons);
    assert_eq!(unbound.selected_index, 0);
    assert_eq!(unbound.value_node, None);
}

#[test]
fn listbox_keys_move_focus_and_enter_selects() {
    let things = vec![listbox_item(5, Some("a"), None, None), listbox_item(5, Some("b"), None, None), listbox_item(5, Some("c"), None, None)];
    let (binds, bound) = listbox_binding(1);
    let mut state = ListboxDefaultWidget::init(5, Some(&binds), Some(&bound), &things, &no_icons());
    let key = |k: u32| WidgetEvent::Input(InputEvent::KeyDown { key: k });
    assert!(ListboxDefaultWidget::handle_event(&mut state, key(0x414400)).is_none());
    assert_eq!(state.focused_index, 2);
    ListboxDefaultWidget::handle_event(&mut state, key(0x414400));
    assert_eq!(state.focused_index, 2);
    ListboxDefaultWidget::handle_event(&mut state, key(0x415500));
    assert_eq!(state.focused_index, 1);
    ListboxDefaultWidget::handle_event(&mut state, key(0x484d00));
    assert_eq!(state.focused_index, 0);
    ListboxDefaultWidget::handle_event(&mut state, key(0x415500));
    assert_eq!(state.focused_index, 0);
    ListboxDefaultWidget::handle_event(&mut state, key(0x454400));
    assert_eq!(state.focused_index, 2);
    assert_eq!(state.selected_index, 1);
    let (node, props) = ListboxDefaultWidget::handle_event(&mut state, key(0x454e00)).unwrap();
    assert_eq!(state.selected_index, 2);
    assert_eq!(node, 77);
    assert!(props.get(&Symbol(thingos::canon::SELECTED_INDEX)).unwrap().same_as(&Value::I64(2)));
    ListboxDefaultWidget::handle_event(&mut state, key(0x484d00));
    let (_, props) = ListboxDefaultWidget::handle_event(&mut state, key(0x202000)).unwrap();
    assert_eq!(state.selected_index, 0);
    assert!(props.get(&Symbol(thingos::canon::SELECTED_INDEX)).unwrap().same_as(&Value::I64(0)));
}

#[test]
fn listbox_press_picks_the_row_of_24() {
    let things = vec![listbox_item(5, Some("a"), None, None), listbox_item(5, Some("b"), None, None)];
    let mut state = ListboxDefaultWidget::init(5, None, None, &things, &no_icons());
    let press = |y: i32| WidgetEvent::Input(InputEvent::MouseDown { x: 3, y, button: 0 });
    assert!(ListboxDefaultWidget::handle_event(&mut state, press(30)).is_none());
    assert_eq!(state.selected_index, 1);
    assert_eq!(state.focused_index, 1);
    assert!(state.has_focus);
    let mut other = ListboxDefaultWidget::init(5, None, None, &things, &no_icons());
    ListboxDefaultWidget::handle_event(&mut other, press(48));
    assert_eq!(other.selected_index, 0);
    assert!(!other.has_focus);
    ListboxDefaultWidget::handle_event(&mut other, press(-5));
    assert_eq!(other.selected_index, 0);
    assert!(other.has_focus);
}

#[test]
fn listbox_draws_background_and_entries() {
    let things = vec![listbox_item(5, Some(""), None, None), listbox_item(5, Some(""), None, None), listbox_item(5, Some(""), None, None)];
    let state = ListboxDefaultWidget::init(5, None, None, &things, &no_icons());
    let rect = Rect { x: 0, y: 0, width: 50, height: 80 };
    let mut fb = vec![0u8; 50 * 80 * 4];
    ListboxDefaultWidget::draw(&state, &mut fb, rect);
    let px = |x: usize, y: usize| fb[(y * 50 + x) * 4..(y * 50 + x) * 4 + 4].to_vec();
    assert_eq!(px(1, 1), vec![0x44, 0x44, 0xaa, 0xff]);
    assert_eq!(px(1, 40), vec![0x33, 0x33, 0x33, 0xff]);
    assert_eq!(px(1, 75), vec![0x22, 0x22, 0x22, 0xff]);
}

#[test]
fn listbox_outlines_the_focused_entry() {
    let things = vec![listbox_item(5, Some(""), None, None), listbox_item(5, Some(""), None, None)];
    let mut state = ListboxDefaultWidget::init(5, None, None, &things, &no_icons());
    ListboxDefaultWidget::handle_event(&mut state, WidgetEvent::Input(InputEvent::MouseDown { x: 0, y: 24, button: 0 }));
    let rect = Rect { x: 0, y: 0, width: 40, height: 72 };
    let mut fb = vec![0u8; 40 * 72 * 4];
    ListboxDefaultWidget::draw(&state, &mut fb, rect);
    let px = |x: usize, y: usize| fb[(y * 40 + x) * 4..(y * 40 + x) * 4 + 4].to_vec();
    assert_eq!(px(0, 36), vec![0xff, 0xff, 0x00, 0xff]);
    assert_eq!(px(39, 50), vec![0xff, 0xff, 0x00, 0xff]);
    assert_eq!(px(5, 71), vec![0xff, 0xff, 0x00, 0xff]);
    assert_eq!(px(1, 40), vec![0x44, 0x44, 0xaa, 0xff]);
    assert_eq!(px(0, 10), vec![0x33, 0x33, 0x33, 0xff]);
}

#[test]
fn listbox_blends_icon_pixels_over_the_entry() {
    let rect = Rect { x: 0, y: 0, width: 60, height: 36 };
    let draw_with = |bmp: Vec<u8>| {
        let icons = IconSet { home: None, menu: Some(bmp), settings: None, close: None };
        let things = vec![listbox_item(5, Some(""), None, Some("menu"))];
        let state = ListboxDefaultWidget::init(5, None, None, &things, &icons);
        let mut fb = vec![0u8; 60 * 36 * 4];
        ListboxDefaultWidget::draw(&state, &mut fb, rect);
        fb[(2 * 60 + 4) * 4..(2 * 60 + 4) * 4 + 4].to_vec()
    };
    assert_eq!(draw_with(one_pixel_bmp(0x10, 0x20, 0x30, 0xff)), vec![0x30, 0x20, 0x10, 0xff]);
    assert_eq!(draw_with(one_pixel_bmp(0x10, 0x20, 0x30, 0x00)), vec![0x44, 0x44, 0xaa, 0xff]);
    assert_eq!(draw_with(one_pixel_bmp(0x10, 0x20, 0x30, 0x80)), vec![0x39, 0x31, 0x5c, 0xff]);
}

fn thumb_fields() -> SymbolMap {
    let mut f = SymbolMap::new();
    f.insert(Symbol(scrollbar_thumb::VIEWPORT_HEIGHT), Value::I64(100));
    f.insert(Symbol(scrollbar_thumb::CONTENT_HEIGHT), Value::I64(400));
    f.insert(Symbol(scrollbar_thumb::SCROLL_Y), Value::I64(30));
    f.insert(Symbol(scrollbar_thumb::MAX_SCROLL), Value::I64(300));
    f.insert(Symbol(scrollbar_thumb::THUMB_OFFSET), Value::I64(10));
    f.insert(Symbol(scrollbar_thumb::THUMB_HEIGHT), Value::I64(20));
    f
}

const PALETTE: ThumbColors = ThumbColors { track: 0xff11_2233, thumb: 0xff44_5566, hilight: 0xff77_8899, shadow: 0xffaa_bbcc };

#[test]
fn scrollbar_thumb_reads_its_metrics() {
    let mut state = ScrollbarThumbWidget::init(8);
    assert!(!state.pressed);
    assert_eq!(state.metrics.thumb_height, 0);
    ScrollbarThumbWidget::read_metrics(&mut state, Some(&thumb_fields()), 60);
    let m = state.metrics;
    assert_eq!((m.viewport_height, m.content_height, m.scroll_y, m.max_scroll), (100, 400, 30, 300));
    assert_eq!((m.thumb_offset, m.thumb_height, m.track_height), (10, 20, 60));
    let mut f = SymbolMap::new();
    f.insert(Symbol(scrollbar_thumb::SCROLL_Y), Value::I64(0x1_0000_0005));
    f.insert(Symbol(scrollbar_thumb::THUMB_HEIGHT), Value::U64(3));
    ScrollbarThumbWidget::read_metrics(&mut state, Some(&f), 70);
    assert_eq!(state.metrics.scroll_y, 5);
    assert_eq!(state.metrics.thumb_height, 20);
    assert_eq!(state.metrics.max_scroll, 300);
    ScrollbarThumbWidget::read_metrics(&mut state, None, 50);
    assert_eq!(state.metrics.track_height, 50);
    assert_eq!(state.metrics.thumb_offset, 10);
}

#[test]
fn scrollbar_thumb_draws_track_and_bevelled_thumb() {
    let mut state = ScrollbarThumbWidget::init(8);
    let rect = Rect { x: 0, y: 0, width: 4, height: 60 };
    let mut fb = vec![0u8; 4 * 60 * 4];
    ScrollbarThumbWidget::draw(&mut state, Some(&thumb_fields()), &mut fb, rect, &PALETTE);
    let px = |fb: &Vec<u8>, x: usize, y: usize| fb[(y * 4 + x) * 4..(y * 4 + x) * 4 + 4].to_vec();
    assert_eq!(px(&fb, 1, 5), vec![0x33, 0x22, 0x11, 0xff]);
    assert_eq!(px(&fb, 1, 10), vec![0x99, 0x88, 0x77, 0xff]);
    assert_eq!(px(&fb, 3, 15), vec![0x66, 0x55, 0x44, 0xff]);
    assert_eq!(px(&fb, 0, 29), vec![0xcc, 0xbb, 0xaa, 0xff]);
    assert_eq!(px(&fb, 1, 30), vec![0x33, 0x22, 0x11, 0xff]);
    state.pressed = true;
    ScrollbarThumbWidget::draw(&mut state, None, &mut fb, rect, &PALETTE);
    assert_eq!(px(&fb, 3, 15), vec![0x99, 0x88, 0x77, 0xff]);
    assert_eq!(px(&fb, 0, 29), vec![0xcc, 0xbb, 0xaa, 0xff]);
}

#[test]
fn scrollbar_thumb_drags_in_proportion() {
    let mut state = ScrollbarThumbWidget::init(8);
    ScrollbarThumbWidget::read_metrics(&mut state, Some(&thumb_fields()), 60);
    let down = |y: i32| WidgetEvent::Input(InputEvent::MouseDown { x: 1, y, button: 0 });
    let moved = |y: i32| WidgetEvent::Input(InputEvent::MouseMove { x: 1, y });
    assert!(ScrollbarThumbWidget::handle_event(&mut state, moved(20)).is_none());
    ScrollbarThumbWidget::handle_event(&mut state, down(40));
    assert!(!state.pressed);
    ScrollbarThumbWidget::handle_event(&mut state, down(15));
    assert!(state.pressed);
    assert_eq!((state.drag_start_mouse_y, state.drag_start_scroll), (15, 30));
    let d = ScrollbarThumbWidget::handle_event(&mut state, moved(25));
    assert!(d == Some(ScrollDrag { dy: 10, max_scroll: 300, max_thumb_offset: 40 }));
    let (id, props) = ScrollbarThumbWidget::scroll_write(&state, 75);
    assert_eq!(id, 8);
    assert!(props.get(&Symbol(scrollbar_thumb::SCROLL_Y)).unwrap().same_as(&Value::I64(105)));
    let (_, props) = ScrollbarThumbWidget::scroll_write(&state, 400);
    assert!(props.get(&Symbol(scrollbar_thumb::SCROLL_Y)).unwrap().same_as(&Value::I64(300)));
    let (_, props) = ScrollbarThumbWidget::scroll_write(&state, -100);
    assert!(props.get(&Symbol(scrollbar_thumb::SCROLL_Y)).unwrap().same_as(&Value::I64(0)));
    ScrollbarThumbWidget::handle_event(&mut state, WidgetEvent::Input(InputEvent::MouseUp { x: 1, y: 25, button: 0 }));
    assert!(!state.pressed);
    assert!(ScrollbarThumbWidget::handle_event(&mut state, moved(30)).is_none());
}

#[test]
fn scrollbar_thumb_flags_drags_past_i32() {
    let mut state = ScrollbarThumbWidget::init(8);
    state.pressed = true;
    state.drag_start_mouse_y = i32::MIN;
    let moved = WidgetEvent::Input(InputEvent::MouseMove { x: 0, y: 10 });
    assert!(!ScrollbarThumbWidget::event_in_range(&state, moved));
    state.drag_start_mouse_y = 0;
    assert!(ScrollbarThumbWidget::event_in_range(&state, moved));
    assert!(ScrollbarThumbWidget::handle_event(&mut state, moved).is_none());
}
