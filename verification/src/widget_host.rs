//! The widget host's decisions: which widget a `WIDGET` Thing hosts and at
//! what size, the widget Thing an unacknowledged notification asks for, and
//! how a widget Thing's fields (focus, size, mouse) and key events turn into
//! input for the hosted widgets. The host's owner holds the widgets' own
//! states and pixels and does what these decisions say.

use vstd::prelude::*;
use vstd::math::max;
use crate::abi::{SymbolMap, Value, ValueView};
use crate::canon::{str_eq, Symbol, ACK, DOWN, HEIGHT, KEY, NOTIFICATION, SCOPE, WIDGET, WIDTH};
use crate::ids::{spec_uuid_v5, uuid_v5, NAMESPACE_OID};
use crate::layout::BINDS;
use crate::records::GraphThing;
use crate::thingable::{field_bool, field_i64, field_symbol, field_u64, get_bool, get_i64, get_symbol, get_u64};
use crate::ui_graph::WIDGET_KIND;
use crate::widget_abi::{text_field, text_prop, InputEvent, WidgetEvent};

verus! {

/// Whether a widget has the focus (`FCS`).
pub const FOCUSED: u32 = 0x464353;

/// The pointer over a widget: column, row and whether a button is down
/// (`MSX`, `MSY`, `MSD`).
pub const MOUSE_X: u32 = 0x4d5358;
pub const MOUSE_Y: u32 = 0x4d5359;
pub const MOUSE_DOWN: u32 = 0x4d5344;

/// The widget a `WIDGET` Thing hosts.
#[derive(Clone, Copy, Debug, PartialEq, Eq, Structural)]
pub enum HostedKind {
    Launcher,
    ScrollbarThumb,
    Toolbar,
    Button,
    Checkbox,
    RadioButton,
    Listbox,
    NotificationToast,
    NotificationDialog,
    Image,
    TopStatusBar,
    Status,
    ThingInspector,
    GraphMiniViewer,
    PlainText,
    Dropdown,
}

/// The widget a kind name hosts; an unknown name hosts a launcher entry.
pub open spec fn kind_named(s: Seq<char>) -> HostedKind {
    if s == "scrollbar_thumb"@ {
        HostedKind::ScrollbarThumb
    } else if s == "toolbar"@ {
        HostedKind::Toolbar
    } else if s == "toolbar_button"@ || s == "button"@ {
        HostedKind::Button
    } else if s == "checkbox"@ {
        HostedKind::Checkbox
    } else if s == "radio_button"@ {
        HostedKind::RadioButton
    } else if s == "listbox_default"@ || s == "list"@ {
        HostedKind::Listbox
    } else if s == "notification_toast"@ {
        HostedKind::NotificationToast
    } else if s == "notification_dialog"@ {
        HostedKind::NotificationDialog
    } else if s == "image"@ {
        HostedKind::Image
    } else if s == "top_status_bar"@ {
        HostedKind::TopStatusBar
    } else if s == "status_widget"@ {
        HostedKind::Status
    } else if s == "thing_inspector"@ {
        HostedKind::ThingInspector
    } else if s == "graph_mini_viewer"@ {
        HostedKind::GraphMiniViewer
    } else if s == "plain_text"@ {
        HostedKind::PlainText
    } else if s == "dropdown"@ || s == "select"@ {
        HostedKind::Dropdown
    } else {
        HostedKind::Launcher
    }
}

/// The widget a Thing's kind text hosts: a launcher entry when it has none.
pub open spec fn spec_hosted_kind(k: Option<Seq<char>>) -> HostedKind {
    match k {
        Some(s) => kind_named(s),
        None => HostedKind::Launcher,
    }
}

/// The widget a kind name hosts.
pub fn hosted_kind(k: Option<&str>) -> (r: HostedKind)
    ensures
        r == spec_hosted_kind(
            match k {
                Some(s) => Some(s@),
                None => None,
            },
        ),
{
    let s = match k {
        Some(s) => s,
        None => return HostedKind::Launcher,
    };
    if str_eq(s, "scrollbar_thumb") {
        HostedKind::ScrollbarThumb
    } else if str_eq(s, "toolbar") {
        HostedKind::Toolbar
    } else if str_eq(s, "toolbar_button") || str_eq(s, "button") {
        HostedKind::Button
    } else if str_eq(s, "checkbox") {
        HostedKind::Checkbox
    } else if str_eq(s, "radio_button") {
        HostedKind::RadioButton
    } else if str_eq(s, "listbox_default") || str_eq(s, "list") {
        HostedKind::Listbox
    } else if str_eq(s, "notification_toast") {
        HostedKind::NotificationToast
    } else if str_eq(s, "notification_dialog") {
        HostedKind::NotificationDialog
    } else if str_eq(s, "image") {
        HostedKind::Image
    } else if str_eq(s, "top_status_bar") {
        HostedKind::TopStatusBar
    } else if str_eq(s, "status_widget") {
        HostedKind::Status
    } else if str_eq(s, "thing_inspector") {
        HostedKind::ThingInspector
    } else if str_eq(s, "graph_mini_viewer") {
        HostedKind::GraphMiniViewer
    } else if str_eq(s, "plain_text") {
        HostedKind::PlainText
    } else if str_eq(s, "dropdown") || str_eq(s, "select") {
        HostedKind::Dropdown
    } else {
        HostedKind::Launcher
    }
}

/// The 16 bytes of an identifier, most significant first.
pub open spec fn id_bytes(id: u128) -> Seq<u8> {
    Seq::new(16, |i: int| (id >> ((120 - 8 * i) as u32)) as u8)
}

fn id_bytes_of(id: u128) -> (b: Vec<u8>)
    ensures
        b@ == id_bytes(id),
{
    let mut b: Vec<u8> = Vec::new();
    let mut i: u32 = 0;
    while i < 16
        invariant
            i <= 16,
            b@.len() == i,
            forall|j: int| 0 <= j < i ==> #[trigger] b@[j] == (id >> ((120 - 8 * j) as u32)) as u8,
        decreases 16 - i,
    {
        b.push((id >> (120 - 8 * i)) as u8);
        i = i + 1;
    }
    proof {
        assert(b@ =~= id_bytes(id));
    }
    b
}

/// The widget Thing an unacknowledged notification asks for: named after
/// the notification's id, bound to it, a 400 by 200 dialog for a global one
/// and a 300 by 80 toast otherwise. An acknowledged one asks for none.
pub open spec fn spec_notification_widget(id: u128, f: Map<u32, ValueView>) -> Option<(u128, Map<u32, ValueView>)> {
    if field_bool(f, ACK) == Some(true) {
        None
    } else {
        let global = text_field(f, SCOPE) == Some("global"@);
        let kind = if global {
            "notification_dialog"@
        } else {
            "notification_toast"@
        };
        let (w, h): (u64, u64) = if global {
            (400, 200)
        } else {
            (300, 80)
        };
        Some(
            (
                spec_uuid_v5(NAMESPACE_OID, id_bytes(id)),
                map![
                    WIDGET_KIND => ValueView::Text(kind),
                    BINDS => ValueView::Uuid(id),
                    WIDTH => ValueView::U64(w),
                    HEIGHT => ValueView::U64(h)
                ],
            ),
        )
    }
}

/// The widget Thing (its id and fields) a notification Thing asks for.
pub fn notification_widget(thing: &GraphThing) -> (r: Option<(u128, SymbolMap)>)
    ensures
        thing.kind.0 != NOTIFICATION ==> r is None,
        thing.kind.0 == NOTIFICATION ==> (match r {
            Some((id, f)) => spec_notification_widget(thing.id, thing.fields@) == Some((id, f@)),
            None => spec_notification_widget(thing.id, thing.fields@) is None,
        }),
{
    if thing.kind.0 != NOTIFICATION {
        return None;
    }
    if get_bool(&thing.fields, ACK) == Some(true) {
        return None;
    }
    let global = match text_prop(&thing.fields, SCOPE) {
        Some(s) => str_eq(s.as_str(), "global"),
        None => false,
    };
    let kind = if global {
        "notification_dialog"
    } else {
        "notification_toast"
    };
    let (w, h): (u64, u64) = if global {
        (400, 200)
    } else {
        (300, 80)
    };
    let bytes = id_bytes_of(thing.id);
    let widget_id = uuid_v5(NAMESPACE_OID, bytes.as_slice());
    let mut f = SymbolMap::new();
    f.insert(Symbol(WIDGET_KIND), Value::text(kind));
    f.insert(Symbol(BINDS), Value::Uuid(thing.id));
    f.insert(Symbol(WIDTH), Value::U64(w));
    f.insert(Symbol(HEIGHT), Value::U64(h));
    proof {
        let m = map![
            WIDGET_KIND => ValueView::Text(kind@),
            BINDS => ValueView::Uuid(thing.id),
            WIDTH => ValueView::U64(w),
            HEIGHT => ValueView::U64(h)
        ];
        assert(f@ =~= m);
    }
    Some((widget_id, f))
}

/// A widget Thing seen for the first time: the widget it hosts, its size
/// (its width and height fields cut to 32 bits, 200 where missing, a button
/// without a height 32 high), and the size fields it had.
pub struct Admission {
    pub kind: HostedKind,
    pub width: u32,
    pub height: u32,
    pub width_prop: Option<u64>,
    pub height_prop: Option<u64>,
}

/// A value read where there is one, else a default.
pub open spec fn or_default<T>(o: Option<T>, d: T) -> T {
    match o {
        Some(v) => v,
        None => d,
    }
}

/// What a widget Thing's fields say when it is first seen.
pub open spec fn spec_admission(f: Map<u32, ValueView>) -> Admission {
    let kind = spec_hosted_kind(text_field(f, WIDGET_KIND));
    let wp = field_u64(f, WIDTH);
    let hp = field_u64(f, HEIGHT);
    Admission {
        kind,
        width: or_default(wp, 200) as u32,
        height: if kind == HostedKind::Button && hp is None {
            32
        } else {
            or_default(hp, 200) as u32
        },
        width_prop: wp,
        height_prop: hp,
    }
}

/// What a widget Thing's fields say when it is first seen.
pub fn admission(fields: &SymbolMap) -> (a: Admission)
    ensures
        a == spec_admission(fields@),
{
    let name = text_prop(fields, WIDGET_KIND);
    let kind = match &name {
        Some(s) => hosted_kind(Some(s.as_str())),
        None => hosted_kind(None),
    };
    let wp = get_u64(fields, WIDTH);
    let hp = get_u64(fields, HEIGHT);
    let width = match wp {
        Some(n) => n as u32,
        None => 200,
    };
    let height = if kind == HostedKind::Button && hp.is_none() {
        32
    } else {
        match hp {
            Some(n) => n as u32,
            None => 200,
        }
    };
    Admission { kind, width, height, width_prop: wp, height_prop: hp }
}

/// The size of a button: its measured size, grown to the size its fields
/// gave where they gave one.
pub open spec fn spec_button_size(a: Admission, mw: u32, mh: u32) -> (u32, u32) {
    (
        if a.width_prop is Some {
            max(mw as int, a.width as int) as u32
        } else {
            mw
        },
        if a.height_prop is Some {
            max(mh as int, a.height as int) as u32
        } else {
            mh
        },
    )
}

/// The size of a button measured at `mw` by `mh`, and the size fields to
/// write back to its Thing when that differs from the admitted size.
pub fn button_size(a: &Admission, mw: u32, mh: u32) -> (r: (u32, u32, Option<SymbolMap>))
    ensures
        (r.0, r.1) == spec_button_size(*a, mw, mh),
        match r.2 {
            Some(f) => (r.0 != a.width || r.1 != a.height) && f@ == map![
                WIDTH => ValueView::U64(r.0 as u64),
                HEIGHT => ValueView::U64(r.1 as u64)
            ],
            None => r.0 == a.width && r.1 == a.height,
        },
{
    let w = if a.width_prop.is_some() && a.width > mw {
        a.width
    } else {
        mw
    };
    let h = if a.height_prop.is_some() && a.height > mh {
        a.height
    } else {
        mh
    };
    if w != a.width || h != a.height {
        let mut f = SymbolMap::new();
        f.insert(Symbol(WIDTH), Value::U64(w as u64));
        f.insert(Symbol(HEIGHT), Value::U64(h as u64));
        proof {
            assert(f@ =~= map![WIDTH => ValueView::U64(w as u64), HEIGHT => ValueView::U64(h as u64)]);
        }
        (w, h, Some(f))
    } else {
        (w, h, None)
    }
}

/// The bytes of a widget's pixel buffer after a resize: four per pixel,
/// saturating.
pub open spec fn spec_buffer_len(w: u32, h: u32) -> int {
    let px: int = if w * h > u32::MAX {
        u32::MAX as int
    } else {
        w * h
    };
    if px * 4 > usize::MAX {
        usize::MAX as int
    } else {
        px * 4
    }
}

/// The bytes of a widget's pixel buffer after a resize.
pub fn buffer_len(w: u32, h: u32) -> (n: usize)
    ensures
        n == spec_buffer_len(w, h),
{
    assert((w as u64) * (h as u64) <= u64::MAX) by (nonlinear_arith)
        requires
            w <= u32::MAX,
            h <= u32::MAX,
    ;
    let wide: u64 = w as u64 * h as u64;
    let px: u64 = if wide > u32::MAX as u64 {
        u32::MAX as u64
    } else {
        wide
    };
    let bytes: u64 = px * 4;
    if bytes > usize::MAX as u64 {
        usize::MAX
    } else {
        bytes as usize
    }
}

/// A hosted widget: its Thing's id, what it is, its size, and whether the
/// pointer was down when last seen.
#[derive(Clone, Copy, Debug, PartialEq, Eq, Structural)]
pub struct Hosted {
    pub id: u128,
    pub kind: HostedKind,
    pub width: u32,
    pub height: u32,
    pub prev_down: bool,
}

/// The hosted widgets and the one that has the focus.
pub struct WidgetHost {
    pub widgets: Vec<Hosted>,
    pub focused: Option<u128>,
}

/// What a host denotes.
pub struct HostView {
    pub widgets: Seq<Hosted>,
    pub focused: Option<u128>,
}

impl View for WidgetHost {
    type V = HostView;

    open spec fn view(&self) -> HostView {
        HostView { widgets: self.widgets@, focused: self.focused }
    }
}

/// Where the widget of a Thing is among the hosted ones: the first with its
/// id.
pub open spec fn index_of(ws: Seq<Hosted>, id: u128) -> Option<int>
    decreases ws.len(),
{
    if ws.len() == 0 {
        None
    } else if ws.last().id == id && index_of(ws.drop_last(), id) is None {
        Some(ws.len() - 1)
    } else {
        index_of(ws.drop_last(), id)
    }
}

proof fn lemma_index_of(ws: Seq<Hosted>, id: u128)
    ensures
        index_of(ws, id) matches Some(i) ==> 0 <= i < ws.len() && ws[i].id == id,
        index_of(ws, id) is None ==> forall|j: int| 0 <= j < ws.len() ==> ws[j].id != id,
        index_of(ws, id) matches Some(i) ==> forall|j: int| 0 <= j < i ==> ws[j].id != id,
    decreases ws.len(),
{
    if ws.len() > 0 {
        let p = ws.drop_last();
        lemma_index_of(p, id);
        assert forall|j: int| 0 <= j < p.len() implies #[trigger] p[j] == ws[j] by {}
        if index_of(ws, id) is None {
            assert forall|j: int| 0 <= j < ws.len() implies ws[j].id != id by {
                if j < p.len() {
                    assert(p[j] == ws[j]);
                }
            }
        }
        if index_of(ws, id) is Some {
            let i = index_of(ws, id)->0;
            assert forall|j: int| 0 <= j < i implies ws[j].id != id by {
                assert(p[j] == ws[j]);
            }
        }
    }
}

/// The focus after a widget Thing's focus field: set to it, or cleared when
/// it had it and the field says it has not.
pub open spec fn focus_after(focused: Option<u128>, id: u128, f: Map<u32, ValueView>) -> Option<u128> {
    match field_bool(f, FOCUSED) {
        Some(true) => Some(id),
        Some(false) => if focused == Some(id) {
            None
        } else {
            focused
        },
        None => focused,
    }
}

/// The input a widget gets from the pointer fields: a press when the button
/// went down, a release when it came up, a move while it is or was down.
pub open spec fn pointer_event(prev_down: bool, f: Map<u32, ValueView>) -> Option<WidgetEvent> {
    let x = or_default(field_i64(f, MOUSE_X), 0) as i32;
    let y = or_default(field_i64(f, MOUSE_Y), 0) as i32;
    let down = or_default(field_bool(f, MOUSE_DOWN), false);
    if down && !prev_down {
        Some(WidgetEvent::Input(InputEvent::MouseDown { x, y, button: 1 }))
    } else if !down && prev_down {
        Some(WidgetEvent::Input(InputEvent::MouseUp { x, y, button: 1 }))
    } else if down || prev_down {
        Some(WidgetEvent::Input(InputEvent::MouseMove { x, y }))
    } else {
        None
    }
}

/// A widget after its Thing's size fields (cut to 32 bits) and pointer
/// fields.
pub open spec fn widget_after(w: Hosted, f: Map<u32, ValueView>) -> Hosted {
    Hosted {
        width: match field_u64(f, WIDTH) {
            Some(n) => n as u32,
            None => w.width,
        },
        height: match field_u64(f, HEIGHT) {
            Some(n) => n as u32,
            None => w.height,
        },
        prev_down: or_default(field_bool(f, MOUSE_DOWN), false),
        ..w
    }
}

/// What a host does with a widget Thing's fields: the focus follows its
/// focus field; its widget (when hosted) takes the new size and pointer
/// state, is resized when the size changed, gets the pointer input, and
/// takes the focus when pressed.
pub open spec fn spec_on_widget(h: HostView, id: u128, f: Map<u32, ValueView>) -> (HostView, bool, Option<WidgetEvent>) {
    let focused = focus_after(h.focused, id, f);
    match index_of(h.widgets, id) {
        Some(i) => {
            let w = h.widgets[i];
            let w2 = widget_after(w, f);
            let ev = pointer_event(w.prev_down, f);
            let pressed = ev matches Some(WidgetEvent::Input(InputEvent::MouseDown { .. }));
            (
                HostView { widgets: h.widgets.update(i, w2), focused: if pressed { Some(id) } else { focused } },
                w2.width != w.width || w2.height != w.height,
                ev,
            )
        },
        None => (HostView { focused, ..h }, false, None),
    }
}

/// The input a key event gives the focused widget (when it is hosted): the
/// key's symbol (0 when it has none), pressed or released.
pub open spec fn spec_on_key(h: HostView, f: Map<u32, ValueView>) -> Option<(u128, WidgetEvent)> {
    match h.focused {
        Some(id) => if index_of(h.widgets, id) is Some {
            let key = or_default(field_symbol(f, KEY), 0);
            if or_default(field_bool(f, DOWN), false) {
                Some((id, WidgetEvent::Input(InputEvent::KeyDown { key })))
            } else {
                Some((id, WidgetEvent::Input(InputEvent::KeyUp { key })))
            }
        } else {
            None
        },
        None => None,
    }
}

impl WidgetHost {
    /// A host with no widgets and no focus.
    pub fn new() -> (h: WidgetHost)
        ensures
            h@.widgets.len() == 0,
            h@.focused is None,
    {
        WidgetHost { widgets: Vec::new(), focused: None }
    }

    /// Where the widget of a Thing is.
    pub fn find(&self, id: u128) -> (r: Option<usize>)
        ensures
            match r {
                Some(i) => index_of(self@.widgets, id) == Some(i as int),
                None => index_of(self@.widgets, id) is None,
            },
    {
        let mut i: usize = 0;
        while i < self.widgets.len()
            invariant
                i <= self.widgets@.len(),
                forall|j: int| 0 <= j < i ==> self.widgets@[j].id != id,
            decreases self.widgets@.len() - i,
        {
            if self.widgets[i].id == id {
                proof {
                    lemma_index_first(self.widgets@, id, i as int);
                }
                return Some(i);
            }
            i = i + 1;
        }
        proof {
            lemma_index_none(self.widgets@, id);
        }
        None
    }

    /// Host a newly admitted widget (one not hosted yet) at its size.
    pub fn host(&mut self, id: u128, kind: HostedKind, width: u32, height: u32)
        ensures
            index_of(old(self)@.widgets, id) is None ==> final(self)@ == (HostView {
                widgets: old(self)@.widgets.push(Hosted { id, kind, width, height, prev_down: false }),
                ..old(self)@
            }),
            index_of(old(self)@.widgets, id) is Some ==> final(self)@ == old(self)@,
    {
        if self.find(id).is_none() {
            self.widgets.push(Hosted { id, kind, width, height, prev_down: false });
        }
    }

    /// Take a widget Thing's fields: returns whether its widget was resized
    /// (its pixels are then reallocated) and the input it gets.
    pub fn on_widget(&mut self, id: u128, fields: &SymbolMap) -> (r: (bool, Option<WidgetEvent>))
        ensures
            (final(self)@, r.0, r.1) == spec_on_widget(old(self)@, id, fields@),
    {
        match get_bool(fields, FOCUSED) {
            Some(true) => self.focused = Some(id),
            Some(false) => {
                if self.focused == Some(id) {
                    self.focused = None;
                }
            },
            None => {},
        }
        let i = match self.find(id) {
            Some(i) => i,
            None => return (false, None),
        };
        proof {
            lemma_index_of(self.widgets@, id);
        }
        let w = self.widgets[i];
        let width = match get_u64(fields, WIDTH) {
            Some(n) => n as u32,
            None => w.width,
        };
        let height = match get_u64(fields, HEIGHT) {
            Some(n) => n as u32,
            None => w.height,
        };
        let x = match get_i64(fields, MOUSE_X) {
            Some(n) => n as i32,
            None => 0,
        };
        let y = match get_i64(fields, MOUSE_Y) {
            Some(n) => n as i32,
            None => 0,
        };
        let down = match get_bool(fields, MOUSE_DOWN) {
            Some(b) => b,
            None => false,
        };
        let ev = if down && !w.prev_down {
            self.focused = Some(id);
            Some(WidgetEvent::Input(InputEvent::MouseDown { x, y, button: 1 }))
        } else if !down && w.prev_down {
            Some(WidgetEvent::Input(InputEvent::MouseUp { x, y, button: 1 }))
        } else if down || w.prev_down {
            Some(WidgetEvent::Input(InputEvent::MouseMove { x, y }))
        } else {
            None
        };
        self.widgets.set(i, Hosted { width, height, prev_down: down, ..w });
        (width != w.width || height != w.height, ev)
    }

    /// The input a key event gives the focused widget, and which one it is.
    pub fn on_key(&self, fields: &SymbolMap) -> (r: Option<(u128, WidgetEvent)>)
        ensures
            r == spec_on_key(self@, fields@),
    {
        let id = match self.focused {
            Some(id) => id,
            None => return None,
        };
        if self.find(id).is_none() {
            return None;
        }
        let key = match get_symbol(fields, KEY) {
            Some(s) => s.0,
            None => 0,
        };
        let down = match get_bool(fields, DOWN) {
            Some(b) => b,
            None => false,
        };
        if down {
            Some((id, WidgetEvent::Input(InputEvent::KeyDown { key })))
        } else {
            Some((id, WidgetEvent::Input(InputEvent::KeyUp { key })))
        }
    }
}

proof fn lemma_index_first(ws: Seq<Hosted>, id: u128, i: int)
    requires
        0 <= i < ws.len(),
        ws[i].id == id,
        forall|j: int| 0 <= j < i ==> ws[j].id != id,
    ensures
        index_of(ws, id) == Some(i),
    decreases ws.len(),
{
    if i < ws.len() - 1 {
        lemma_index_first(ws.drop_last(), id, i);
    } else {
        lemma_index_none(ws.drop_last(), id);
    }
}

proof fn lemma_index_none(ws: Seq<Hosted>, id: u128)
    requires
        forall|j: int| 0 <= j < ws.len() ==> ws[j].id != id,
    ensures
        index_of(ws, id) is None,
    decreases ws.len(),
{
    if ws.len() > 0 {
        lemma_index_none(ws.drop_last(), id);
    }
}

} // verus!
