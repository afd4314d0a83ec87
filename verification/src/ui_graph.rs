//! Widgets and cursors described in the graph: a `WIDGET` Thing carries a
//! widget's role, label, layout hints and flex settings; a `CURSOR` Thing a
//! scroll position over a page of a total.

use vstd::prelude::*;
use crate::abi::{spec_extract_text, extract_text, value_view, SymbolMap, Value, ValueView};
use crate::canon::{Symbol, ACTIVE, BITMAP, CURSOR, DESCRIPTION, FOCUSABLE, HEIGHT, KIND, LABEL, PAGE_SIZE, POSITION, ROLE, TAB_INDEX, TOTAL_SIZE, VISIBLE, WIDGET, WIDTH, X, Y};
use crate::flex::{spec_value_text, AlignItems, FlexDirection, JustifyContent};
use crate::fs::PARENT;
use crate::layout::{GAP, ICON_NAME};
use crate::records::GraphThing;
use crate::thingable::{field_bool, field_bytes, field_i64, field_text, field_u64, field_uuid, get_bool, get_i64, get_text, get_u64, get_uuid};

verus! {

/// The label of an item, read where a widget has no label of its own (`ILB`).
pub const ITEM_LABEL: u32 = 0x494c42;

/// What a widget does when used (`ACN`).
pub const ACTION: u32 = 0x41434e;

/// Layout bounds of a widget (`MNW`, `MXW`, `MNH`, `MXH`).
pub const MIN_WIDTH: u32 = 0x4d4e57;
pub const MAX_WIDTH: u32 = 0x4d5857;
pub const MIN_HEIGHT: u32 = 0x4d4e48;
pub const MAX_HEIGHT: u32 = 0x4d5848;

/// The kind of a widget (`WK`), also its role when it has none.
pub const WIDGET_KIND: u32 = 0x574b00;

/// Where a widget's bitmap may also be found (`ID`).
pub const IMAGE_DATA: u32 = 0x494400;

/// Flex settings of a widget: direction, justification, alignment, grow
/// and shrink factors (`FD`, `JC`, `AI`, `FG`, `FS`).
pub const FLEX_DIRECTION: u32 = 0x464400;
pub const JUSTIFY_CONTENT: u32 = 0x4a4300;
pub const ALIGN_ITEMS: u32 = 0x414900;
pub const FLEX_GROW: u32 = 0x464700;
pub const FLEX_SHRINK: u32 = 0x465300;

/// A widget as the graph describes it. The flex factors are the whole
/// numbers stored in the graph.
pub struct Widget {
    pub id: u128,
    pub role: String,
    pub kind: Option<String>,
    pub parent: Option<u128>,
    pub visible: bool,
    pub enabled: bool,
    pub label: Option<String>,
    pub icon: Option<String>,
    pub action: Option<String>,
    pub description: Option<String>,
    pub focusable: bool,
    pub tab_index: Option<i64>,
    pub bitmap: Option<Vec<u8>>,
    pub width: Option<u64>,
    pub height: Option<u64>,
    pub min_width: Option<u64>,
    pub min_height: Option<u64>,
    pub max_width: Option<u64>,
    pub max_height: Option<u64>,
    pub x: Option<u64>,
    pub y: Option<u64>,
    pub flex_direction: Option<FlexDirection>,
    pub justify_content: Option<JustifyContent>,
    pub align_items: Option<AlignItems>,
    pub flex_grow: Option<i64>,
    pub flex_shrink: Option<i64>,
    pub gap: Option<i32>,
}

/// What a widget denotes.
pub struct WidgetView {
    pub id: u128,
    pub role: Seq<char>,
    pub kind: Option<Seq<char>>,
    pub parent: Option<u128>,
    pub visible: bool,
    pub enabled: bool,
    pub label: Option<Seq<char>>,
    pub icon: Option<Seq<char>>,
    pub action: Option<Seq<char>>,
    pub description: Option<Seq<char>>,
    pub focusable: bool,
    pub tab_index: Option<i64>,
    pub bitmap: Option<Seq<u8>>,
    pub width: Option<u64>,
    pub height: Option<u64>,
    pub min_width: Option<u64>,
    pub min_height: Option<u64>,
    pub max_width: Option<u64>,
    pub max_height: Option<u64>,
    pub x: Option<u64>,
    pub y: Option<u64>,
    pub flex_direction: Option<FlexDirection>,
    pub justify_content: Option<JustifyContent>,
    pub align_items: Option<AlignItems>,
    pub flex_grow: Option<i64>,
    pub flex_shrink: Option<i64>,
    pub gap: Option<i32>,
}

/// The view of an optional string.
pub open spec fn text_view(t: Option<String>) -> Option<Seq<char>> {
    match t {
        Some(s) => Some(s@),
        None => None,
    }
}

impl View for Widget {
    type V = WidgetView;

    open spec fn view(&self) -> WidgetView {
        WidgetView {
            id: self.id,
            role: self.role@,
            kind: text_view(self.kind),
            parent: self.parent,
            visible: self.visible,
            enabled: self.enabled,
            label: text_view(self.label),
            icon: text_view(self.icon),
            action: text_view(self.action),
            description: text_view(self.description),
            focusable: self.focusable,
            tab_index: self.tab_index,
            bitmap: match &self.bitmap {
                Some(b) => Some(b@),
                None => None,
            },
            width: self.width,
            height: self.height,
            min_width: self.min_width,
            min_height: self.min_height,
            max_width: self.max_width,
            max_height: self.max_height,
            x: self.x,
            y: self.y,
            flex_direction: self.flex_direction,
            justify_content: self.justify_content,
            align_items: self.align_items,
            flex_grow: self.flex_grow,
            flex_shrink: self.flex_shrink,
            gap: self.gap,
        }
    }
}

/// A value read where there is one, else the value held.
pub open spec fn or_held<T>(read: Option<T>, held: T) -> T {
    match read {
        Some(v) => v,
        None => held,
    }
}

/// A value read where there is one, else the one held.
pub open spec fn or_else_held<T>(read: Option<T>, held: Option<T>) -> Option<T> {
    match read {
        Some(v) => Some(v),
        None => held,
    }
}

/// The role a widget's fields give: its role text, else its kind text.
pub open spec fn role_field(f: Map<u32, ValueView>) -> Option<Seq<char>> {
    or_else_held(field_text(f, ROLE), field_text(f, WIDGET_KIND))
}

/// The label a widget's fields give: its label when the field is there
/// (text or not), else its item label.
pub open spec fn label_field(f: Map<u32, ValueView>) -> Option<Seq<char>> {
    if f.contains_key(LABEL) {
        spec_extract_text(f[LABEL])
    } else {
        field_text(f, ITEM_LABEL)
    }
}

/// The bitmap a widget's fields give: its bitmap when the field is there
/// (bytes or not), else its image data.
pub open spec fn bitmap_field(f: Map<u32, ValueView>) -> Option<Seq<u8>> {
    if f.contains_key(BITMAP) {
        field_bytes(f, BITMAP)
    } else {
        field_bytes(f, IMAGE_DATA)
    }
}

/// The direction stored under a key, when it names one.
pub open spec fn direction_field(f: Map<u32, ValueView>, k: u32) -> Option<FlexDirection> {
    if f.contains_key(k) {
        match spec_value_text(f[k]) {
            Some(t) => FlexDirection::spec_parse(t),
            None => None,
        }
    } else {
        None
    }
}

/// The justification stored under a key, when it names one.
pub open spec fn justify_field(f: Map<u32, ValueView>, k: u32) -> Option<JustifyContent> {
    if f.contains_key(k) {
        match spec_value_text(f[k]) {
            Some(t) => JustifyContent::spec_parse(t),
            None => None,
        }
    } else {
        None
    }
}

/// The alignment stored under a key, when it names one.
pub open spec fn align_field(f: Map<u32, ValueView>, k: u32) -> Option<AlignItems> {
    if f.contains_key(k) {
        match spec_value_text(f[k]) {
            Some(t) => AlignItems::spec_parse(t),
            None => None,
        }
    } else {
        None
    }
}

/// The gap a widget's fields give: the number stored, cut to 32 bits.
pub open spec fn gap_field(f: Map<u32, ValueView>) -> Option<i32> {
    match field_i64(f, GAP) {
        Some(g) => Some(g as i32),
        None => None,
    }
}

/// A widget after reading a Thing's fields: each setting found in them
/// (of the right type) replaces the one held; the others stay.
pub open spec fn spec_widget_update(w: WidgetView, f: Map<u32, ValueView>) -> WidgetView {
    WidgetView {
        id: w.id,
        role: or_held(role_field(f), w.role),
        kind: or_else_held(field_text(f, WIDGET_KIND), w.kind),
        parent: or_else_held(field_uuid(f, PARENT), w.parent),
        visible: or_held(field_bool(f, VISIBLE), w.visible),
        enabled: or_held(field_bool(f, ACTIVE), w.enabled),
        label: or_else_held(label_field(f), w.label),
        icon: or_else_held(field_text(f, ICON_NAME), w.icon),
        action: or_else_held(field_text(f, ACTION), w.action),
        description: or_else_held(field_text(f, DESCRIPTION), w.description),
        focusable: or_held(field_bool(f, FOCUSABLE), w.focusable),
        tab_index: or_else_held(field_i64(f, TAB_INDEX), w.tab_index),
        bitmap: or_else_held(bitmap_field(f), w.bitmap),
        width: or_else_held(field_u64(f, WIDTH), w.width),
        height: or_else_held(field_u64(f, HEIGHT), w.height),
        min_width: or_else_held(field_u64(f, MIN_WIDTH), w.min_width),
        min_height: or_else_held(field_u64(f, MIN_HEIGHT), w.min_height),
        max_width: or_else_held(field_u64(f, MAX_WIDTH), w.max_width),
        max_height: or_else_held(field_u64(f, MAX_HEIGHT), w.max_height),
        x: or_else_held(field_u64(f, X), w.x),
        y: or_else_held(field_u64(f, Y), w.y),
        flex_direction: or_else_held(direction_field(f, FLEX_DIRECTION), w.flex_direction),
        justify_content: or_else_held(justify_field(f, JUSTIFY_CONTENT), w.justify_content),
        align_items: or_else_held(align_field(f, ALIGN_ITEMS), w.align_items),
        flex_grow: or_else_held(field_i64(f, FLEX_GROW), w.flex_grow),
        flex_shrink: or_else_held(field_i64(f, FLEX_SHRINK), w.flex_shrink),
        gap: or_else_held(gap_field(f), w.gap),
    }
}

/// A widget with nothing read yet: no role, visible, enabled, not
/// focusable, no other setting.
pub open spec fn spec_blank_widget(id: u128) -> WidgetView {
    WidgetView {
        id,
        role: Seq::empty(),
        kind: None,
        parent: None,
        visible: true,
        enabled: true,
        label: None,
        icon: None,
        action: None,
        description: None,
        focusable: false,
        tab_index: None,
        bitmap: None,
        width: None,
        height: None,
        min_width: None,
        min_height: None,
        max_width: None,
        max_height: None,
        x: None,
        y: None,
        flex_direction: None,
        justify_content: None,
        align_items: None,
        flex_grow: None,
        flex_shrink: None,
        gap: None,
    }
}

/// The widget a Thing describes: only a `WIDGET` Thing does; its settings
/// are read over a blank widget.
pub open spec fn spec_widget_load(kind: u32, id: u128, f: Map<u32, ValueView>) -> Option<WidgetView> {
    if kind != WIDGET {
        None
    } else {
        Some(spec_widget_update(spec_blank_widget(id), f))
    }
}

fn read_label(f: &SymbolMap) -> (r: Option<String>)
    ensures
        text_view(r) == label_field(f@),
{
    match f.get(&Symbol(LABEL)) {
        Some(v) => extract_text(v),
        None => get_text(f, ITEM_LABEL),
    }
}

fn read_bytes(f: &SymbolMap, k: u32) -> (r: Option<Vec<u8>>)
    ensures
        (match r {
            Some(b) => Some(b@),
            None => None,
        }) == field_bytes(f@, k),
{
    match f.get(&Symbol(k)) {
        Some(Value::Bytes(b)) => {
            let mut out: Vec<u8> = Vec::new();
            let mut i: usize = 0;
            while i < b.len()
                invariant
                    i <= b@.len(),
                    out@ == b@.take(i as int),
                decreases b@.len() - i,
            {
                out.push(b[i]);
                proof {
                    assert(b@.take(i + 1) =~= b@.take(i as int).push(b@[i as int]));
                }
                i = i + 1;
            }
            proof {
                assert(b@.take(i as int) =~= b@);
            }
            Some(out)
        },
        _ => None,
    }
}

fn read_bitmap(f: &SymbolMap) -> (r: Option<Vec<u8>>)
    ensures
        (match r {
            Some(b) => Some(b@),
            None => None,
        }) == bitmap_field(f@),
{
    if f.contains_key(&Symbol(BITMAP)) {
        read_bytes(f, BITMAP)
    } else {
        read_bytes(f, IMAGE_DATA)
    }
}

fn read_direction(f: &SymbolMap, k: u32) -> (r: Option<FlexDirection>)
    ensures
        r == direction_field(f@, k),
{
    match f.get(&Symbol(k)) {
        Some(v) => FlexDirection::from_value(v),
        None => None,
    }
}

fn read_justify(f: &SymbolMap, k: u32) -> (r: Option<JustifyContent>)
    ensures
        r == justify_field(f@, k),
{
    match f.get(&Symbol(k)) {
        Some(v) => JustifyContent::from_value(v),
        None => None,
    }
}

fn read_align(f: &SymbolMap, k: u32) -> (r: Option<AlignItems>)
    ensures
        r == align_field(f@, k),
{
    match f.get(&Symbol(k)) {
        Some(v) => AlignItems::from_value(v),
        None => None,
    }
}

fn read_text(f: &SymbolMap, k: u32) -> (r: Option<String>)
    ensures
        text_view(r) == field_text(f@, k),
{
    get_text(f, k)
}

impl Widget {
    /// Read a Thing's fields into the widget: each setting found (of the
    /// right type) replaces the one held.
    pub fn update(&mut self, thing: &GraphThing)
        ensures
            final(self)@ == spec_widget_update(old(self)@, thing.fields@),
    {
        self.update_names(&thing.fields);
        self.update_layout(&thing.fields);
        self.update_bounds(&thing.fields);
        self.update_flex(&thing.fields);
    }

    fn update_names(&mut self, f: &SymbolMap)
        ensures
            final(self)@ == (WidgetView {
                role: spec_widget_update(old(self)@, f@).role,
                kind: spec_widget_update(old(self)@, f@).kind,
                parent: spec_widget_update(old(self)@, f@).parent,
                visible: spec_widget_update(old(self)@, f@).visible,
                enabled: spec_widget_update(old(self)@, f@).enabled,
                label: spec_widget_update(old(self)@, f@).label,
                icon: spec_widget_update(old(self)@, f@).icon,
                action: spec_widget_update(old(self)@, f@).action,
                description: spec_widget_update(old(self)@, f@).description,
                ..old(self)@
            }),
    {
        match read_text(f, ROLE) {
            Some(r) => self.role = r,
            None => match read_text(f, WIDGET_KIND) {
                Some(r) => self.role = r,
                None => {},
            },
        }
        match read_text(f, WIDGET_KIND) {
            Some(k) => self.kind = Some(k),
            None => {},
        }
        match get_uuid(f, PARENT) {
            Some(p) => self.parent = Some(p),
            None => {},
        }
        match get_bool(f, VISIBLE) {
            Some(b) => self.visible = b,
            None => {},
        }
        match get_bool(f, ACTIVE) {
            Some(b) => self.enabled = b,
            None => {},
        }
        match read_label(f) {
            Some(l) => self.label = Some(l),
            None => {},
        }
        match read_text(f, ICON_NAME) {
            Some(t) => self.icon = Some(t),
            None => {},
        }
        match read_text(f, ACTION) {
            Some(t) => self.action = Some(t),
            None => {},
        }
        match read_text(f, DESCRIPTION) {
            Some(t) => self.description = Some(t),
            None => {},
        }
    }

    fn update_layout(&mut self, f: &SymbolMap)
        ensures
            final(self)@ == (WidgetView {
                focusable: spec_widget_update(old(self)@, f@).focusable,
                tab_index: spec_widget_update(old(self)@, f@).tab_index,
                bitmap: spec_widget_update(old(self)@, f@).bitmap,
                width: spec_widget_update(old(self)@, f@).width,
                height: spec_widget_update(old(self)@, f@).height,
                ..old(self)@
            }),
    {
        match get_bool(f, FOCUSABLE) {
            Some(b) => self.focusable = b,
            None => {},
        }
        match get_i64(f, TAB_INDEX) {
            Some(n) => self.tab_index = Some(n),
            None => {},
        }
        match read_bitmap(f) {
            Some(b) => self.bitmap = Some(b),
            None => {},
        }
        match get_u64(f, WIDTH) {
            Some(n) => self.width = Some(n),
            None => {},
        }
        match get_u64(f, HEIGHT) {
            Some(n) => self.height = Some(n),
            None => {},
        }
    }

    fn update_bounds(&mut self, f: &SymbolMap)
        ensures
            final(self)@ == (WidgetView {
                min_width: spec_widget_update(old(self)@, f@).min_width,
                min_height: spec_widget_update(old(self)@, f@).min_height,
                max_width: spec_widget_update(old(self)@, f@).max_width,
                max_height: spec_widget_update(old(self)@, f@).max_height,
                x: spec_widget_update(old(self)@, f@).x,
                y: spec_widget_update(old(self)@, f@).y,
                ..old(self)@
            }),
    {
        match get_u64(f, MIN_WIDTH) {
            Some(n) => self.min_width = Some(n),
            None => {},
        }
        match get_u64(f, MAX_WIDTH) {
            Some(n) => self.max_width = Some(n),
            None => {},
        }
        match get_u64(f, MIN_HEIGHT) {
            Some(n) => self.min_height = Some(n),
            None => {},
        }
        match get_u64(f, MAX_HEIGHT) {
            Some(n) => self.max_height = Some(n),
            None => {},
        }
        match get_u64(f, X) {
            Some(n) => self.x = Some(n),
            None => {},
        }
        match get_u64(f, Y) {
            Some(n) => self.y = Some(n),
            None => {},
        }
    }

    fn update_flex(&mut self, f: &SymbolMap)
        ensures
            final(self)@ == (WidgetView {
                flex_direction: spec_widget_update(old(self)@, f@).flex_direction,
                justify_content: spec_widget_update(old(self)@, f@).justify_content,
                align_items: spec_widget_update(old(self)@, f@).align_items,
                flex_grow: spec_widget_update(old(self)@, f@).flex_grow,
                flex_shrink: spec_widget_update(old(self)@, f@).flex_shrink,
                gap: spec_widget_update(old(self)@, f@).gap,
                ..old(self)@
            }),
    {
        match read_direction(f, FLEX_DIRECTION) {
            Some(d) => self.flex_direction = Some(d),
            None => {},
        }
        match read_justify(f, JUSTIFY_CONTENT) {
            Some(d) => self.justify_content = Some(d),
            None => {},
        }
        match read_align(f, ALIGN_ITEMS) {
            Some(d) => self.align_items = Some(d),
            None => {},
        }
        match get_i64(f, FLEX_GROW) {
            Some(n) => self.flex_grow = Some(n),
            None => {},
        }
        match get_i64(f, FLEX_SHRINK) {
            Some(n) => self.flex_shrink = Some(n),
            None => {},
        }
        match get_i64(f, GAP) {
            Some(n) => self.gap = Some(n as i32),
            None => {},
        }
    }

    /// A widget with nothing read yet.
    pub fn blank(id: u128) -> (w: Widget)
        ensures
            w@ == spec_blank_widget(id),
    {
        Widget {
            id,
            role: String::new(),
            kind: None,
            parent: None,
            visible: true,
            enabled: true,
            label: None,
            icon: None,
            action: None,
            description: None,
            focusable: false,
            tab_index: None,
            bitmap: None,
            width: None,
            height: None,
            min_width: None,
            min_height: None,
            max_width: None,
            max_height: None,
            x: None,
            y: None,
            flex_direction: None,
            justify_content: None,
            align_items: None,
            flex_grow: None,
            flex_shrink: None,
            gap: None,
        }
    }

    /// Read a widget from a Thing.
    pub fn load(thing: &GraphThing) -> (r: Option<Widget>)
        ensures
            (match r {
                Some(w) => Some(w@),
                None => None,
            }) == spec_widget_load(thing.kind.0, thing.id, thing.fields@),
    {
        if thing.kind.0 != WIDGET {
            return None;
        }
        let mut w = Widget::blank(thing.id);
        w.update(thing);
        Some(w)
    }
}

/// A scroll position as the graph describes it.
pub struct Cursor {
    pub id: u128,
    pub kind: String,
    pub position: i64,
    pub page_size: i64,
    pub total_size: i64,
}

/// What a cursor denotes.
pub struct CursorView {
    pub id: u128,
    pub kind: Seq<char>,
    pub position: i64,
    pub page_size: i64,
    pub total_size: i64,
}

impl View for Cursor {
    type V = CursorView;

    open spec fn view(&self) -> CursorView {
        CursorView {
            id: self.id,
            kind: self.kind@,
            position: self.position,
            page_size: self.page_size,
            total_size: self.total_size,
        }
    }
}

/// The cursor a Thing describes: only a `CURSOR` Thing does; a missing kind
/// reads as empty, a missing number as 0.
pub open spec fn spec_cursor_load(kind: u32, id: u128, f: Map<u32, ValueView>) -> Option<CursorView> {
    if kind != CURSOR {
        None
    } else {
        Some(
            CursorView {
                id,
                kind: or_held(field_text(f, KIND), Seq::empty()),
                position: or_held(field_i64(f, POSITION), 0),
                page_size: or_held(field_i64(f, PAGE_SIZE), 0),
                total_size: or_held(field_i64(f, TOTAL_SIZE), 0),
            },
        )
    }
}

impl Cursor {
    /// Read a cursor from a Thing.
    pub fn load(thing: &GraphThing) -> (r: Option<Cursor>)
        ensures
            (match r {
                Some(c) => Some(c@),
                None => None,
            }) == spec_cursor_load(thing.kind.0, thing.id, thing.fields@),
    {
        if thing.kind.0 != CURSOR {
            return None;
        }
        let kind = match read_text(&thing.fields, KIND) {
            Some(k) => k,
            None => String::new(),
        };
        let position = match get_i64(&thing.fields, POSITION) {
            Some(n) => n,
            None => 0,
        };
        let page_size = match get_i64(&thing.fields, PAGE_SIZE) {
            Some(n) => n,
            None => 0,
        };
        let total_size = match get_i64(&thing.fields, TOTAL_SIZE) {
            Some(n) => n,
            None => 0,
        };
        proof {
            reveal_strlit("");
        }
        Some(Cursor { id: thing.id, kind, position, page_size, total_size })
    }
}

/// The fields of a new widget: its role, visibility, whether it is enabled,
/// and its label when it has one.
pub open spec fn spec_widget_fields(role: Seq<char>, visible: bool, enabled: bool, label: Option<Seq<char>>) -> Map<u32, ValueView> {
    let f = map![ROLE => ValueView::Text(role), VISIBLE => ValueView::Bool(visible), ACTIVE => ValueView::Bool(enabled)];
    match label {
        Some(l) => f.insert(LABEL, ValueView::Text(l)),
        None => f,
    }
}

/// The fields of a new widget.
pub fn widget_fields(role: &str, visible: bool, enabled: bool, label: Option<&str>) -> (f: SymbolMap)
    ensures
        f@ == spec_widget_fields(
            role@,
            visible,
            enabled,
            match label {
                Some(l) => Some(l@),
                None => None,
            },
        ),
{
    let mut f = SymbolMap::new();
    f.insert(Symbol(ROLE), Value::text(role));
    f.insert(Symbol(VISIBLE), Value::Bool(visible));
    f.insert(Symbol(ACTIVE), Value::Bool(enabled));
    match label {
        Some(l) => f.insert(Symbol(LABEL), Value::text(l)),
        None => {},
    }
    proof {
        let m = spec_widget_fields(
            role@,
            visible,
            enabled,
            match label {
                Some(l) => Some(l@),
                None => None,
            },
        );
        assert(f@ =~= m);
    }
    f
}

/// The fields of a new cursor: its kind, position, page size and total.
pub open spec fn spec_cursor_fields(kind: Seq<char>, position: i64, page_size: i64, total_size: i64) -> Map<u32, ValueView> {
    map![
        KIND => ValueView::Text(kind),
        POSITION => ValueView::I64(position),
        PAGE_SIZE => ValueView::I64(page_size),
        TOTAL_SIZE => ValueView::I64(total_size)
    ]
}

/// The fields of a new cursor.
pub fn cursor_fields(kind: &str, position: i64, page_size: i64, total_size: i64) -> (f: SymbolMap)
    ensures
        f@ == spec_cursor_fields(kind@, position, page_size, total_size),
{
    let mut f = SymbolMap::new();
    f.insert(Symbol(KIND), Value::text(kind));
    f.insert(Symbol(POSITION), Value::I64(position));
    f.insert(Symbol(PAGE_SIZE), Value::I64(page_size));
    f.insert(Symbol(TOTAL_SIZE), Value::I64(total_size));
    proof {
        assert(f@ =~= spec_cursor_fields(kind@, position, page_size, total_size));
    }
    f
}

/// A widget being described: its role (`widget` at first), parent, label,
/// icon, action, and whether it takes the focus.
pub struct WidgetBuilder {
    pub role: String,
    pub parent: Option<u128>,
    pub label: Option<String>,
    pub icon: Option<String>,
    pub action: Option<String>,
    pub focusable: bool,
}

/// What a widget description denotes.
pub struct BuilderView {
    pub role: Seq<char>,
    pub parent: Option<u128>,
    pub label: Option<Seq<char>>,
    pub icon: Option<Seq<char>>,
    pub action: Option<Seq<char>>,
    pub focusable: bool,
}

impl View for WidgetBuilder {
    type V = BuilderView;

    open spec fn view(&self) -> BuilderView {
        BuilderView {
            role: self.role@,
            parent: self.parent,
            label: text_view(self.label),
            icon: text_view(self.icon),
            action: text_view(self.action),
            focusable: self.focusable,
        }
    }
}

/// The fields of the widget Thing a description makes: its role, label,
/// icon, action and parent where it has them, and whether it is focusable.
pub open spec fn spec_builder_fields(b: BuilderView) -> Map<u32, ValueView> {
    let f0 = map![ROLE => ValueView::Text(b.role)];
    let f1 = match b.label {
        Some(l) => f0.insert(LABEL, ValueView::Text(l)),
        None => f0,
    };
    let f2 = match b.icon {
        Some(i) => f1.insert(ICON_NAME, ValueView::Text(i)),
        None => f1,
    };
    let f3 = match b.action {
        Some(a) => f2.insert(ACTION, ValueView::Text(a)),
        None => f2,
    };
    let f4 = match b.parent {
        Some(p) => f3.insert(PARENT, ValueView::Uuid(p)),
        None => f3,
    };
    f4.insert(FOCUSABLE, ValueView::Bool(b.focusable))
}

fn opt_copy(s: &Option<String>) -> (r: Option<String>)
    ensures
        text_view(r) == text_view(*s),
{
    match s {
        Some(t) => Some(String::from_str(t.as_str())),
        None => None,
    }
}

impl WidgetBuilder {
    /// A plain widget: role `widget`, nothing else.
    pub fn new() -> (b: WidgetBuilder)
        ensures
            b@ == (BuilderView { role: "widget"@, parent: None, label: None, icon: None, action: None, focusable: false }),
    {
        WidgetBuilder { role: String::from_str("widget"), parent: None, label: None, icon: None, action: None, focusable: false }
    }

    /// The description with another role.
    pub fn role(self, role: &str) -> (b: WidgetBuilder)
        ensures
            b@ == (BuilderView { role: role@, ..self@ }),
    {
        WidgetBuilder { role: String::from_str(role), ..self }
    }

    /// The description with a parent.
    pub fn child_of(self, parent: u128) -> (b: WidgetBuilder)
        ensures
            b@ == (BuilderView { parent: Some(parent), ..self@ }),
    {
        WidgetBuilder { parent: Some(parent), ..self }
    }

    /// The description with a text label.
    pub fn set_text_label(self, label: &str) -> (b: WidgetBuilder)
        ensures
            b@ == (BuilderView { label: Some(label@), ..self@ }),
    {
        WidgetBuilder { label: Some(String::from_str(label)), ..self }
    }

    /// The description with a property: a text icon name or action is kept;
    /// anything else is ignored.
    pub fn set_property(self, key: Symbol, value: Value) -> (b: WidgetBuilder)
        ensures
            b@ == (match value_view(value) {
                ValueView::Text(t) => if key.0 == ICON_NAME {
                    BuilderView { icon: Some(t), ..self@ }
                } else if key.0 == ACTION {
                    BuilderView { action: Some(t), ..self@ }
                } else {
                    self@
                },
                _ => self@,
            }),
    {
        if key.0 == ICON_NAME {
            if let Value::Text(s) = value {
                return WidgetBuilder { icon: Some(s), ..self };
            }
        } else if key.0 == ACTION {
            if let Value::Text(s) = value {
                return WidgetBuilder { action: Some(s), ..self };
            }
        }
        self
    }

    /// The description taking the focus or not.
    pub fn focusable(self, focusable: bool) -> (b: WidgetBuilder)
        ensures
            b@ == (BuilderView { focusable, ..self@ }),
    {
        WidgetBuilder { focusable, ..self }
    }

    /// The fields of the widget Thing the description makes; it is then linked
    /// to its parent (when it has one) as a child.
    pub fn fields(&self) -> (f: SymbolMap)
        ensures
            f@ == spec_builder_fields(self@),
    {
        let mut f = SymbolMap::new();
        f.insert(Symbol(ROLE), Value::Text(String::from_str(self.role.as_str())));
        match opt_copy(&self.label) {
            Some(l) => f.insert(Symbol(LABEL), Value::Text(l)),
            None => {},
        }
        match opt_copy(&self.icon) {
            Some(i) => f.insert(Symbol(ICON_NAME), Value::Text(i)),
            None => {},
        }
        match opt_copy(&self.action) {
            Some(a) => f.insert(Symbol(ACTION), Value::Text(a)),
            None => {},
        }
        match self.parent {
            Some(p) => f.insert(Symbol(PARENT), Value::Uuid(p)),
            None => {},
        }
        f.insert(Symbol(FOCUSABLE), Value::Bool(self.focusable));
        proof {
            assert(f@ =~= spec_builder_fields(self@));
        }
        f
    }
}

/// A toolbar under a parent.
pub fn toolbar(parent: u128) -> (b: WidgetBuilder)
    ensures
        b@ == (BuilderView { role: "container.toolbar"@, parent: Some(parent), label: None, icon: None, action: None, focusable: false }),
{
    WidgetBuilder::new().role("container.toolbar").child_of(parent)
}

/// A focusable toolbar button under a parent, with an icon, an action and
/// perhaps a label.
pub fn toolbar_button(parent: u128, icon_name: &str, action: &str, label: Option<&str>) -> (b: WidgetBuilder)
    ensures
        b@ == (BuilderView {
            role: "control.toolbar_button"@,
            parent: Some(parent),
            label: match label {
                Some(l) => Some(l@),
                None => None,
            },
            icon: Some(icon_name@),
            action: Some(action@),
            focusable: true,
        }),
{
    let b = WidgetBuilder::new().role("control.toolbar_button").child_of(parent).focusable(true).set_property(
        Symbol(ICON_NAME),
        Value::text(icon_name),
    ).set_property(Symbol(ACTION), Value::text(action));
    match label {
        Some(l) => b.set_text_label(l),
        None => b,
    }
}

} // verus!
