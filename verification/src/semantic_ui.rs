//! Semantic widgets and cursors as Things: what their fields are, and how a
//! Thing reads back as one.

use vstd::prelude::*;
use crate::abi::{SymbolMap, Value, ValueView};
use crate::canon::{Symbol, ACTIVE, CURSOR, DESCRIPTION, FOCUSABLE, KIND, LABEL, PAGE_SIZE, POSITION, ROLE, TAB_INDEX, TOTAL_SIZE, VISIBLE, WIDGET};
use crate::records::{GraphThing, ThingView};
use crate::thingable::{field_bool, field_i64, field_text, get_bool, get_i64, get_text, or_bool};

verus! {

/// What a widget record holds.
pub struct WidgetView {
    pub id: u128,
    pub role: Seq<char>,
    pub visible: bool,
    pub enabled: bool,
    pub label: Option<Seq<char>>,
    pub description: Option<Seq<char>>,
    pub focusable: bool,
    pub tab_index: Option<i64>,
}

/// A user-interface element described by its role.
#[derive(Debug)]
pub struct Widget {
    pub id: u128,
    pub role: String,
    pub visible: bool,
    pub enabled: bool,
    pub label: Option<String>,
    pub description: Option<String>,
    pub focusable: bool,
    pub tab_index: Option<i64>,
}

/// The view of optional text.
pub open spec fn opt_string_view(s: Option<String>) -> Option<Seq<char>> {
    match s {
        Some(t) => Some(t@),
        None => None,
    }
}

impl View for Widget {
    type V = WidgetView;

    open spec fn view(&self) -> WidgetView {
        WidgetView {
            id: self.id,
            role: self.role@,
            visible: self.visible,
            enabled: self.enabled,
            label: opt_string_view(self.label),
            description: opt_string_view(self.description),
            focusable: self.focusable,
            tab_index: self.tab_index,
        }
    }
}

/// Text, or the empty text.
pub open spec fn or_empty(o: Option<Seq<char>>) -> Seq<char> {
    match o {
        Some(t) => t,
        None => Seq::empty(),
    }
}

/// A Thing read as a widget: only a widget Thing is one; visible and
/// enabled unless said otherwise, not focusable unless said so.
pub open spec fn spec_load_widget(t: ThingView) -> Option<WidgetView> {
    if t.kind != WIDGET {
        None
    } else {
        Some(
            WidgetView {
                id: t.id,
                role: or_empty(field_text(t.fields, ROLE)),
                visible: or_bool(field_bool(t.fields, VISIBLE), true),
                enabled: or_bool(field_bool(t.fields, ACTIVE), true),
                label: field_text(t.fields, LABEL),
                description: field_text(t.fields, DESCRIPTION),
                focusable: or_bool(field_bool(t.fields, FOCUSABLE), false),
                tab_index: field_i64(t.fields, TAB_INDEX),
            },
        )
    }
}

impl Widget {
    /// Read a Thing as a widget.
    pub fn load(thing: &GraphThing) -> (r: Option<Widget>)
        ensures
            r matches Some(w) ==> spec_load_widget(thing@) == Some(w@),
            r is None ==> spec_load_widget(thing@) is None,
    {
        if thing.kind.0 != WIDGET {
            return None;
        }
        let role = match get_text(&thing.fields, ROLE) {
            Some(r) => r,
            None => String::new(),
        };
        let visible = match get_bool(&thing.fields, VISIBLE) {
            Some(b) => b,
            None => true,
        };
        let enabled = match get_bool(&thing.fields, ACTIVE) {
            Some(b) => b,
            None => true,
        };
        let label = get_text(&thing.fields, LABEL);
        let description = get_text(&thing.fields, DESCRIPTION);
        let focusable = match get_bool(&thing.fields, FOCUSABLE) {
            Some(b) => b,
            None => false,
        };
        let tab_index = get_i64(&thing.fields, TAB_INDEX);
        let w = Widget { id: thing.id, role, visible, enabled, label, description, focusable, tab_index };
        proof {
            assert(w@.role == or_empty(field_text(thing@.fields, ROLE)));
        }
        Some(w)
    }
}

/// What a cursor record holds.
pub struct CursorView {
    pub id: u128,
    pub kind: Seq<char>,
    pub position: i64,
    pub page_size: i64,
    pub total_size: i64,
}

/// A position within scrollable content.
#[derive(Debug)]
pub struct Cursor {
    pub id: u128,
    pub kind: String,
    pub position: i64,
    pub page_size: i64,
    pub total_size: i64,
}

impl View for Cursor {
    type V = CursorView;

    open spec fn view(&self) -> CursorView {
        CursorView {
            id: self.id,
            kind: self.kind@,
            position: self.position,
            page_size: self.page_size,
            total_size: self.total_size,
        }
    }
}

/// A number, or 0.
pub open spec fn or_zero(o: Option<i64>) -> i64 {
    match o {
        Some(n) => n,
        None => 0,
    }
}

/// A Thing read as a cursor: only a cursor Thing is one; absent numbers are 0.
pub open spec fn spec_load_cursor(t: ThingView) -> Option<CursorView> {
    if t.kind != CURSOR {
        None
    } else {
        Some(
            CursorView {
                id: t.id,
                kind: or_empty(field_text(t.fields, KIND)),
                position: or_zero(field_i64(t.fields, POSITION)),
                page_size: or_zero(field_i64(t.fields, PAGE_SIZE)),
                total_size: or_zero(field_i64(t.fields, TOTAL_SIZE)),
            },
        )
    }
}

impl Cursor {
    /// Read a Thing as a cursor.
    pub fn load(thing: &GraphThing) -> (r: Option<Cursor>)
        ensures
            r matches Some(c) ==> spec_load_cursor(thing@) == Some(c@),
            r is None ==> spec_load_cursor(thing@) is None,
    {
        if thing.kind.0 != CURSOR {
            return None;
        }
        let kind = match get_text(&thing.fields, KIND) {
            Some(k) => k,
            None => String::new(),
        };
        let position = match get_i64(&thing.fields, POSITION) {
            Some(n) => n,
            None => 0,
        };
        let page_size = match get_i64(&thing.fields, PAGE_SIZE) {
            Some(n) => n,
            None => 0,
        };
        let total_size = match get_i64(&thing.fields, TOTAL_SIZE) {
            Some(n) => n,
            None => 0,
        };
        let c = Cursor { id: thing.id, kind, position, page_size, total_size };
        proof {
            assert(c@.kind == or_empty(field_text(thing@.fields, KIND)));
        }
        Some(c)
    }
}

/// The fields of a new widget: its role, whether visible and enabled, and
/// its label when given.
pub open spec fn spec_widget_fields(role: Seq<char>, visible: bool, enabled: bool, label: Option<Seq<char>>) -> Map<u32, ValueView> {
    let m = map![ROLE => ValueView::Text(role), VISIBLE => ValueView::Bool(visible), ACTIVE => ValueView::Bool(enabled)];
    match label {
        Some(l) => m.insert(LABEL, ValueView::Text(l)),
        None => m,
    }
}

/// The fields of a new widget (created as a `WIDGET` Thing).
pub fn widget_fields(role: &str, visible: bool, enabled: bool, label: Option<&str>) -> (m: SymbolMap)
    ensures
        m@ == spec_widget_fields(
            role@,
            visible,
            enabled,
            match label {
                Some(l) => Some(l@),
                None => None,
            },
        ),
{
    let mut m = SymbolMap::new();
    m.insert(Symbol(ROLE), Value::text(role));
    m.insert(Symbol(VISIBLE), Value::Bool(visible));
    m.insert(Symbol(ACTIVE), Value::Bool(enabled));
    proof {
        assert(m@ =~= map![ROLE => ValueView::Text(role@), VISIBLE => ValueView::Bool(visible), ACTIVE => ValueView::Bool(enabled)]);
    }
    match label {
        Some(l) => m.insert(Symbol(LABEL), Value::text(l)),
        None => {},
    }
    m
}

/// The fields of a new cursor: its kind, position, page size and total size.
pub open spec fn spec_cursor_fields(kind: Seq<char>, position: i64, page_size: i64, total_size: i64) -> Map<u32, ValueView> {
    map![
        KIND => ValueView::Text(kind),
        POSITION => ValueView::I64(position),
        PAGE_SIZE => ValueView::I64(page_size),
        TOTAL_SIZE => ValueView::I64(total_size)
    ]
}

/// The fields of a new cursor (created as a `CURSOR` Thing).
pub fn cursor_fields(kind: &str, position: i64, page_size: i64, total_size: i64) -> (m: SymbolMap)
    ensures
        m@ == spec_cursor_fields(kind@, position, page_size, total_size),
{
    let mut m = SymbolMap::new();
    m.insert(Symbol(KIND), Value::text(kind));
    m.insert(Symbol(POSITION), Value::I64(position));
    m.insert(Symbol(PAGE_SIZE), Value::I64(page_size));
    m.insert(Symbol(TOTAL_SIZE), Value::I64(total_size));
    proof {
        assert(m@ =~= spec_cursor_fields(kind@, position, page_size, total_size));
    }
    m
}

/// A new widget's fields read back as that widget.
pub proof fn lemma_widget_round_trip(id: u128, role: Seq<char>, visible: bool, enabled: bool, label: Option<Seq<char>>, labels: Set<u32>, owner: u128, revision: u64)
    ensures
        spec_load_widget(ThingView { id, kind: WIDGET, labels, fields: spec_widget_fields(role, visible, enabled, label), owner, revision })
            == Some(WidgetView { id, role, visible, enabled, label, description: None, focusable: false, tab_index: None }),
{
    let f = spec_widget_fields(role, visible, enabled, label);
    assert(f.contains_key(ROLE) && f[ROLE] == ValueView::Text(role));
    assert(!f.contains_key(DESCRIPTION) && !f.contains_key(FOCUSABLE) && !f.contains_key(TAB_INDEX));
    match label {
        Some(l) => {
            assert(f[LABEL] == ValueView::Text(l));
        },
        None => {
            assert(!f.contains_key(LABEL));
        },
    }
}

/// A new cursor's fields read back as that cursor.
pub proof fn lemma_cursor_round_trip(id: u128, kind: Seq<char>, position: i64, page_size: i64, total_size: i64, labels: Set<u32>, owner: u128, revision: u64)
    ensures
        spec_load_cursor(ThingView { id, kind: CURSOR, labels, fields: spec_cursor_fields(kind, position, page_size, total_size), owner, revision })
            == Some(CursorView { id, kind, position, page_size, total_size }),
{
}

} // verus!
