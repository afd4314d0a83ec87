//! A push button: a bevelled box with a label (and an icon), that launches
//! its target and selects its bound index when activated.

use vstd::prelude::*;
use vstd::math::{max, min};
use crate::abi::{utf8_text, spec_utf8, SymbolMap, Value, ValueView};
use crate::canon::{Symbol, BYTES, LAUNCH_REQUEST, NAME, PACKAGE, SELECTED_INDEX, TARGET, TEXT};
use crate::layout::{BINDS, ICON_NAME};
use crate::raster::{argb, measure_text_width, ops_wf, paint_all, paint_views, render, spec_argb, text_width, Paint, PaintView, Pixel, Rect};
use crate::records::{GraphThing, GraphPropsGetRequest};
use crate::thingable::{field_bool, field_i64, field_uuid, get_bool, get_i64, get_uuid};
use crate::widget_abi::{
    fill_box, lemma_draw_wf, lemma_ops_wf_append, no_ops, push_fill_box, push_text, rect_clip, spec_rect_clip, text_ops, Advance, Clip, Stop, TextStyle,
    prop_text_or, props_view, text_field, text_or, text_prop, InputEvent, WidgetEvent,
};

verus! {

/// Whether a button shows its label (`SHL`).
pub const SHOW_LABEL: u32 = 0x53484c;

/// The index a button selects in the Thing it is bound to (`IDX`).
pub const BIND_INDEX: u32 = 0x494458;

/// Padding around an icon.
pub const ICON_PADDING: i64 = 4;

/// Padding either side of a label without an icon.
pub const LABEL_SIDE_PADDING: i64 = 8;

/// The narrowest a button gets.
pub const MIN_BUTTON_WIDTH: i64 = 24;

/// The advance of a character the font lacks.
pub const DEFAULT_GLYPH_WIDTH: i64 = 8;

/// The height of a line of text.
pub const TEXT_HEIGHT: i64 = 16;

/// The button widget.
pub struct ButtonWidget;

/// The outline of an icon: SVG path data and its size.
pub struct IconPath {
    pub data: String,
    pub width: u32,
    pub height: u32,
}

/// What an icon denotes.
pub struct IconView {
    pub data: Seq<char>,
    pub width: u32,
    pub height: u32,
}

impl View for IconPath {
    type V = IconView;

    open spec fn view(&self) -> IconView {
        IconView { data: self.data@, width: self.width, height: self.height }
    }
}

/// A button's state.
pub struct State {
    pub label: String,
    pub target: String,
    pub pressed: bool,
    pub hovered: bool,
    pub focused: bool,
    pub icon_name: Option<String>,
    pub icon: Option<IconPath>,
    pub show_label: bool,
    pub bind_node: Option<u128>,
    pub bind_index: Option<i64>,
}

/// What a button's state denotes.
pub struct StateView {
    pub label: Seq<char>,
    pub target: Seq<char>,
    pub pressed: bool,
    pub hovered: bool,
    pub focused: bool,
    pub icon_name: Option<Seq<char>>,
    pub icon: Option<IconView>,
    pub show_label: bool,
    pub bind_node: Option<u128>,
    pub bind_index: Option<i64>,
}

impl View for State {
    type V = StateView;

    open spec fn view(&self) -> StateView {
        StateView {
            label: self.label@,
            target: self.target@,
            pressed: self.pressed,
            hovered: self.hovered,
            focused: self.focused,
            icon_name: match &self.icon_name {
                Some(n) => Some(n@),
                None => None,
            },
            icon: match &self.icon {
                Some(i) => Some(i@),
                None => None,
            },
            show_label: self.show_label,
            bind_node: self.bind_node,
            bind_index: self.bind_index,
        }
    }
}

/// The first position at or after `from` where `pat` occurs in `s`.
pub open spec fn find_from(s: Seq<u8>, pat: Seq<u8>, from: nat) -> Option<nat>
    decreases s.len() + 1 - from,
{
    if from + pat.len() > s.len() {
        None
    } else if s.subrange(from as int, (from + pat.len()) as int) == pat {
        Some(from)
    } else {
        find_from(s, pat, from + 1)
    }
}

/// ` d="`, as bytes.
pub open spec fn d_attr() -> Seq<u8> {
    seq![32u8, 100u8, 61u8, 34u8]
}

/// The bytes of the `d` attribute of the first SVG path element: what lies
/// between ` d="` and the next `"`.
pub open spec fn spec_path_bytes(svg: Seq<u8>) -> Option<Seq<u8>> {
    match find_from(svg, d_attr(), 0) {
        Some(i) => match find_from(svg, seq![34u8], i + 4) {
            Some(j) => Some(svg.subrange((i + 4) as int, j as int)),
            None => None,
        },
        None => None,
    }
}

/// The icons a button has when no file provides one: a cross, a menu and a
/// back arrow, 24 pixels square.
pub open spec fn builtin_icon(name: Seq<char>) -> Option<Seq<char>> {
    if name == "close"@ {
        Some("M 18 6 L 6 18 M 6 6 L 18 18"@)
    } else if name == "menu"@ {
        Some("M 3 12 L 21 12 M 3 6 L 21 6 M 3 18 L 21 18"@)
    } else if name == "arrow-back"@ {
        Some("M 19 12 L 5 12 M 12 19 L 5 12 L 12 5"@)
    } else {
        None
    }
}

/// The path an icon file gives for a name: a file whose `ICON_NAME` text is
/// the name and whose `BYTES` are UTF-8 SVG text with a path's `d`
/// attribute, itself UTF-8 text.
pub open spec fn file_icon(f: Map<u32, ValueView>, name: Seq<char>) -> Option<Seq<char>> {
    if text_field(f, ICON_NAME) == Some(name) && f.contains_key(BYTES) {
        match f[BYTES] {
            ValueView::Bytes(b) => if spec_utf8(b) is Some {
                match spec_path_bytes(b) {
                    Some(p) => spec_utf8(p),
                    None => None,
                }
            } else {
                None
            },
            _ => None,
        }
    } else {
        None
    }
}

/// The icon for a name: that of the first file (of those given, in order)
/// that provides it, else a built-in one; 24 pixels square either way.
pub open spec fn spec_load_icon(files: Seq<Map<u32, ValueView>>, name: Seq<char>) -> Option<IconView>
    decreases files.len(),
{
    if files.len() == 0 {
        match builtin_icon(name) {
            Some(d) => Some(IconView { data: d, width: 24, height: 24 }),
            None => None,
        }
    } else {
        match file_icon(files[0], name) {
            Some(d) => Some(IconView { data: d, width: 24, height: 24 }),
            None => spec_load_icon(files.drop_first(), name),
        }
    }
}

/// The fields of a list of Things.
pub open spec fn fields_of(things: Seq<GraphThing>) -> Seq<Map<u32, ValueView>> {
    things.map_values(|t: GraphThing| t.fields@)
}

fn find_bytes(s: &[u8], pat: &Vec<u8>, from: usize) -> (r: Option<usize>)
    requires
        pat@.len() > 0,
    ensures
        match r {
            Some(i) => find_from(s@, pat@, from as nat) == Some(i as nat),
            None => find_from(s@, pat@, from as nat) is None,
        },
{
    let mut i = from;
    while i <= s.len() && pat.len() <= s.len() - i
        invariant
            pat@.len() > 0,
            from <= i,
            find_from(s@, pat@, from as nat) == find_from(s@, pat@, i as nat),
        decreases s@.len() + 1 - i,
    {
        let mut k: usize = 0;
        let mut same = true;
        let n: usize = s.len();
        while k < pat.len()
            invariant
                k <= pat@.len(),
                i + pat@.len() <= s@.len(),
                s@.len() == n,
                same <==> (forall|t: int| 0 <= t < k ==> s@[i + t] == pat@[t]),
            decreases pat@.len() - k,
        {
            if s[i + k] != pat[k] {
                same = false;
            }
            k = k + 1;
        }
        proof {
            if same {
                assert(s@.subrange(i as int, i + pat@.len()) =~= pat@);
            } else if s@.subrange(i as int, i + pat@.len()) == pat@ {
                assert forall|t: int| 0 <= t < pat@.len() implies s@[i + t] == pat@[t] by {
                    assert(s@.subrange(i as int, i + pat@.len())[t] == s@[i + t]);
                }
            }
        }
        if same {
            return Some(i);
        }
        i = i + 1;
    }
    None
}

fn path_bytes(svg: &[u8]) -> (r: Option<Vec<u8>>)
    ensures
        match r {
            Some(p) => spec_path_bytes(svg@) == Some(p@),
            None => spec_path_bytes(svg@) is None,
        },
{
    let mut d: Vec<u8> = Vec::new();
    d.push(32u8);
    d.push(100u8);
    d.push(61u8);
    d.push(34u8);
    let mut q: Vec<u8> = Vec::new();
    q.push(34u8);
    proof {
        assert(d@ =~= d_attr());
        assert(q@ =~= seq![34u8]);
    }
    let i = match find_bytes(svg, &d, 0) {
        Some(i) => i,
        None => return None,
    };
    let n: usize = svg.len();
    proof {
        lemma_find_bounds(svg@, d_attr(), 0);
        assert(i + 4 <= n);
    }
    let j = match find_bytes(svg, &q, i + 4) {
        Some(j) => j,
        None => return None,
    };
    proof {
        lemma_find_bounds(svg@, seq![34u8], (i + 4) as nat);
    }
    let mut out: Vec<u8> = Vec::new();
    let mut k = i + 4;
    while k < j
        invariant
            i + 4 <= k <= j <= svg@.len(),
            out@ == svg@.subrange(i + 4, k as int),
        decreases j - k,
    {
        out.push(svg[k]);
        proof {
            assert(svg@.subrange(i + 4, k + 1) =~= svg@.subrange(i + 4, k as int).push(svg@[k as int]));
        }
        k = k + 1;
    }
    Some(out)
}

proof fn lemma_find_bounds(s: Seq<u8>, pat: Seq<u8>, from: nat)
    ensures
        find_from(s, pat, from) matches Some(i) ==> from <= i && i + pat.len() <= s.len(),
    decreases s.len() + 1 - from,
{
    if from + pat.len() <= s.len() && s.subrange(from as int, (from + pat.len()) as int) != pat {
        lemma_find_bounds(s, pat, from + 1);
    }
}

fn file_icon_of(f: &SymbolMap, name: &str) -> (r: Option<String>)
    ensures
        match r {
            Some(d) => file_icon(f@, name@) == Some(d@),
            None => file_icon(f@, name@) is None,
        },
{
    match text_prop(f, ICON_NAME) {
        Some(n) => {
            if !crate::canon::str_eq(n.as_str(), name) {
                return None;
            }
        },
        None => return None,
    }
    match f.get(&Symbol(BYTES)) {
        Some(Value::Bytes(b)) => {
            match utf8_text(b.as_slice()) {
                Some(_) => {},
                None => return None,
            }
            match path_bytes(b.as_slice()) {
                Some(p) => utf8_text(p.as_slice()),
                None => None,
            }
        },
        _ => None,
    }
}

fn builtin_icon_of(name: &str) -> (r: Option<String>)
    ensures
        match r {
            Some(d) => builtin_icon(name@) == Some(d@),
            None => builtin_icon(name@) is None,
        },
{
    if crate::canon::str_eq(name, "close") {
        Some(String::from_str("M 18 6 L 6 18 M 6 6 L 18 18"))
    } else if crate::canon::str_eq(name, "menu") {
        Some(String::from_str("M 3 12 L 21 12 M 3 6 L 21 6 M 3 18 L 21 18"))
    } else if crate::canon::str_eq(name, "arrow-back") {
        Some(String::from_str("M 19 12 L 5 12 M 12 19 L 5 12 L 12 5"))
    } else {
        None
    }
}

/// The icon for a name, from the icon files given (the Things of kind `FIL`)
/// or the built-in ones.
pub fn load_icon(name: &str, files: &Vec<GraphThing>) -> (r: Option<IconPath>)
    ensures
        match r {
            Some(i) => spec_load_icon(fields_of(files@), name@) == Some(i@),
            None => spec_load_icon(fields_of(files@), name@) is None,
        },
{
    let ghost all = fields_of(files@);
    let mut k: usize = 0;
    proof {
        assert(all.skip(0) =~= all);
    }
    while k < files.len()
        invariant
            k <= files@.len(),
            all == fields_of(files@),
            spec_load_icon(all, name@) == spec_load_icon(all.skip(k as int), name@),
        decreases files@.len() - k,
    {
        let ghost rest = all.skip(k as int);
        proof {
            assert(rest[0] == files@[k as int].fields@);
            assert(rest.drop_first() =~= all.skip(k + 1));
        }
        match file_icon_of(&files[k].fields, name) {
            Some(d) => {
                return Some(IconPath { data: d, width: 24, height: 24 });
            },
            None => {},
        }
        k = k + 1;
    }
    proof {
        assert(all.skip(k as int) =~= Seq::<Map<u32, ValueView>>::empty());
    }
    match builtin_icon_of(name) {
        Some(d) => Some(IconPath { data: d, width: 24, height: 24 }),
        None => None,
    }
}

/// The state of a button whose Thing read as `props`: its text (else
/// `Btn`), target and icon name (an empty one meaning none), whether it
/// shows its label (else it does), what it is bound to and which index it
/// selects there; its icon is what `icon` gives for the name; neither pressed,
/// hovered nor focused.
pub open spec fn spec_init(props: Option<Map<u32, ValueView>>, icon: Option<IconView>) -> StateView {
    let name = text_or(props, ICON_NAME, Seq::empty());
    StateView {
        label: text_or(props, TEXT, "Btn"@),
        target: text_or(props, TARGET, Seq::empty()),
        pressed: false,
        hovered: false,
        focused: false,
        icon_name: if name.len() == 0 {
            None
        } else {
            Some(name)
        },
        icon: if name.len() == 0 {
            None
        } else {
            icon
        },
        show_label: match props {
            Some(p) => match field_bool(p, SHOW_LABEL) {
                Some(b) => b,
                None => true,
            },
            None => true,
        },
        bind_node: match props {
            Some(p) => field_uuid(p, BINDS),
            None => None,
        },
        bind_index: match props {
            Some(p) => field_i64(p, BIND_INDEX),
            None => None,
        },
    }
}

/// What a button asks for when activated.
pub enum ButtonAction {
    /// Store these properties on a Thing.
    SetProps { node: u128, props: SymbolMap },
    /// Create a `LAUNCH_REQUEST` Thing with these fields.
    Launch { fields: SymbolMap },
}

/// What an action denotes.
pub enum ActionView {
    SetProps { node: u128, props: Map<u32, ValueView> },
    Launch { fields: Map<u32, ValueView> },
}

/// The views of a list of actions.
pub open spec fn actions_view(a: Seq<ButtonAction>) -> Seq<ActionView> {
    a.map_values(
        |x: ButtonAction|
            match x {
                ButtonAction::SetProps { node, props } => ActionView::SetProps { node, props: props@ },
                ButtonAction::Launch { fields } => ActionView::Launch { fields: fields@ },
            },
    )
}

/// What activating a button asks for: the bound Thing's selected index set
/// to the button's index (when it is bound and has one), then a launch of
/// its target labelled with its label (when it has a target).
pub open spec fn spec_activate(s: StateView) -> Seq<ActionView> {
    (match (s.bind_node, s.bind_index) {
        (Some(n), Some(i)) => seq![ActionView::SetProps { node: n, props: map![SELECTED_INDEX => ValueView::I64(i)] }],
        _ => Seq::empty(),
    }) + (if s.target.len() > 0 {
        seq![ActionView::Launch { fields: map![PACKAGE => ValueView::Text(s.target), NAME => ValueView::Text(s.label)] }]
    } else {
        Seq::empty()
    })
}

/// Whether a key activates a button: Enter or Space.
pub open spec fn activates(key: u32) -> bool {
    key == 0x454e00 || key == 0x202000
}

/// A button after an event, and what it asks for: a press arms it; a release
/// of an armed button activates it and disarms it; Enter or Space activates
/// it; a move marks it hovered.
pub open spec fn spec_event(s: StateView, e: WidgetEvent) -> (StateView, Seq<ActionView>) {
    match e {
        WidgetEvent::Input(InputEvent::MouseDown { .. }) => (StateView { pressed: true, ..s }, Seq::empty()),
        WidgetEvent::Input(InputEvent::MouseUp { .. }) => if s.pressed {
            (StateView { pressed: false, ..s }, spec_activate(s))
        } else {
            (s, Seq::empty())
        },
        WidgetEvent::Input(InputEvent::KeyDown { key }) => if activates(key) {
            (s, spec_activate(s))
        } else {
            (s, Seq::empty())
        },
        WidgetEvent::Input(InputEvent::MouseMove { .. }) => (StateView { hovered: true, ..s }, Seq::empty()),
        _ => (s, Seq::empty()),
    }
}

/// The size a button wants: room for its icon and label with padding, at
/// least 24 wide and at least `base_height` high.
pub open spec fn spec_intrinsic_size(s: StateView, base_height: u32) -> (int, int) {
    let tw = if s.show_label {
        text_width(s.label, DEFAULT_GLYPH_WIDTH as int)
    } else {
        0
    };
    let iw: int = match s.icon {
        Some(i) => i.width as int,
        None => 0,
    };
    let ih: int = match s.icon {
        Some(i) => i.height as int,
        None => 0,
    };
    let lh: int = if s.show_label {
        TEXT_HEIGHT as int
    } else {
        0
    };
    let content_h = max(ih, lh);
    let width = if s.icon is Some {
        if s.show_label {
            ICON_PADDING + iw + ICON_PADDING + tw + ICON_PADDING
        } else {
            iw + ICON_PADDING * 2
        }
    } else if s.show_label {
        tw + LABEL_SIDE_PADDING * 2
    } else {
        MIN_BUTTON_WIDTH as int
    };
    let needed = content_h + ICON_PADDING * 2;
    (max(width, MIN_BUTTON_WIDTH as int), max(base_height as int, max(needed, 1)))
}


/// The face of a button: darker while pressed, lighter while hovered.
pub open spec fn face_color(s: StateView) -> u32 {
    if s.pressed {
        0xffa0_a0a0
    } else if s.hovered {
        0xffe0_e0e0
    } else {
        0xffc0_c0c0
    }
}

/// A coordinate of the button cut to `0..=limit`.
pub open spec fn cut(v: int, limit: int) -> int {
    min(max(v, 0), limit)
}

/// The box of columns `x0..x1` and rows `y0..y1` of the button (in its own
/// coordinates), cut to the button, as fills of the buffer.
pub open spec fn local_box(r: Rect, x0: int, y0: int, x1: int, y1: int, p: Pixel) -> Seq<PaintView> {
    let w = r.width as int;
    let h = r.height as int;
    fill_box(r.x + cut(x0, w), r.y + cut(y0, h), r.x + cut(x1, w), r.y + cut(y1, h), w, p)
}

/// A row of `len` pixels from `(x, y)`, cut to the button.
pub open spec fn hline(r: Rect, x: int, y: int, len: int, p: Pixel) -> Seq<PaintView> {
    local_box(r, x, y, x + len, y + 1, p)
}

/// A column of `len` pixels from `(x, y)`, cut to the button.
pub open spec fn vline(r: Rect, x: int, y: int, len: int, p: Pixel) -> Seq<PaintView> {
    local_box(r, x, y, x + 1, y + len, p)
}

/// The face and 3D bevel: the face colour over the whole button, a black
/// outline, then a white top-left and dark bottom-right edge (or, pressed,
/// a dark top-left edge only).
pub open spec fn spec_frame_ops(s: StateView, r: Rect) -> Seq<PaintView> {
    let w = r.width as int;
    let h = r.height as int;
    let ink = spec_argb(0xff00_0000);
    let light = spec_argb(0xffff_ffff);
    let dark = spec_argb(0xff40_4040);
    let outline = hline(r, 0, 0, w, ink) + hline(r, 0, h - 1, w, ink) + vline(r, 0, 0, h, ink) + vline(r, w - 1, 0, h, ink);
    let bevel = if s.pressed {
        hline(r, 1, 1, w - 2, dark) + vline(r, 1, 1, h - 2, dark)
    } else {
        hline(r, 1, 1, w - 2, light) + vline(r, 1, 1, h - 2, light) + hline(r, 1, h - 2, w - 2, dark) + vline(r, w - 2, 1, h - 2, dark)
    };
    local_box(r, 0, 0, w, h, spec_argb(face_color(s))) + outline + bevel
}

/// How far the content moves while pressed.
pub open spec fn press_offset(s: StateView) -> int {
    if s.pressed {
        1
    } else {
        0
    }
}

/// Half of a value, rounded toward zero.
pub open spec fn half(v: int) -> int {
    if v >= 0 {
        v / 2
    } else {
        -((-v) / 2)
    }
}

/// Where the icon goes, in the button's coordinates: after the padding when
/// the label shows, else centred; centred vertically; moved while pressed.
pub open spec fn spec_icon_origin(s: StateView, r: Rect) -> Option<(int, int)> {
    match s.icon {
        Some(i) => {
            let x = if s.show_label {
                ICON_PADDING as int
            } else {
                half(r.width - i.width)
            };
            Some((x + press_offset(s), half(r.height - i.height) + press_offset(s)))
        },
        None => None,
    }
}

/// How a label is set: each glyph's own columns and width (8 for a
/// character the font lacks), in black, cut to the button.
pub open spec fn spec_label_style(r: Rect) -> TextStyle {
    TextStyle {
        eight_columns: false,
        advance: Advance::WidthOrFixed,
        multiline: false,
        stop: Stop::Never,
        clip: spec_rect_clip(r),
        pixel: spec_argb(0xff00_0000),
    }
}

/// Where the label starts, in the button's coordinates: after the icon and
/// its padding, else centred; centred vertically on a 16-row line.
pub open spec fn label_origin(s: StateView, r: Rect) -> (int, int) {
    let x = match s.icon {
        Some(i) => ICON_PADDING + i.width + ICON_PADDING,
        None => half(r.width - text_width(s.label, DEFAULT_GLYPH_WIDTH as int)),
    };
    (x + press_offset(s), half(r.height - TEXT_HEIGHT) + press_offset(s))
}

/// One pixel of the button, cut to it.
pub open spec fn pixel_at(r: Rect, x: int, y: int, p: Pixel) -> Seq<PaintView> {
    local_box(r, x, y, x + 1, y + 1, p)
}

/// The top and bottom of the dotted focus ring (`w` by `h` from `(3, 3)`),
/// every other column from `i`.
pub open spec fn ring_rows(r: Rect, w: int, h: int, i: int) -> Seq<PaintView>
    decreases w + 1 - i,
{
    if i >= w {
        Seq::empty()
    } else {
        let ink = spec_argb(0xff00_0000);
        pixel_at(r, 3 + i, 3, ink) + pixel_at(r, 3 + i, 3 + h - 1, ink) + ring_rows(r, w, h, i + 2)
    }
}

/// The left and right of the dotted focus ring, every other row from `i`.
pub open spec fn ring_cols(r: Rect, w: int, h: int, i: int) -> Seq<PaintView>
    decreases h + 1 - i,
{
    if i >= h {
        Seq::empty()
    } else {
        let ink = spec_argb(0xff00_0000);
        pixel_at(r, 3, 3 + i, ink) + pixel_at(r, 3 + w - 1, 3 + i, ink) + ring_cols(r, w, h, i + 2)
    }
}

/// What is drawn over the icon: the label when it shows, then the focus
/// ring (inset 3, every other pixel) when focused.
pub open spec fn spec_overlay_ops(s: StateView, r: Rect) -> Seq<PaintView> {
    let (lx, ly) = label_origin(s, r);
    let label = if s.show_label {
        text_ops(s.label, r.x + lx, r.y + ly, r.x + lx, spec_label_style(r))
    } else {
        Seq::empty()
    };
    let fw = r.width - 6;
    let fh = r.height - 6;
    let ring = if s.focused {
        ring_rows(r, fw, fh, 0) + ring_cols(r, fw, fh, 0)
    } else {
        Seq::empty()
    };
    label + ring
}


/// The pixels of a line walked from `(x, y)` toward `(x1, y1)` (Bresenham's
/// walk: `dx` and `dy` the spans, `dy` negative, `sx` and `sy` the steps,
/// `err` the running error), each cut to the button, for at most `fuel`
/// pixels.
pub open spec fn line_walk(
    r: Rect,
    x: int,
    y: int,
    err: int,
    x1: int,
    y1: int,
    dx: int,
    dy: int,
    sx: int,
    sy: int,
    p: Pixel,
    fuel: nat,
) -> Seq<PaintView>
    decreases fuel,
{
    if fuel == 0 {
        Seq::empty()
    } else if x == x1 && y == y1 {
        pixel_at(r, x, y, p)
    } else {
        let e2 = 2 * err;
        let err1 = if e2 >= dy {
            err + dy
        } else {
            err
        };
        let xn = if e2 >= dy {
            x + sx
        } else {
            x
        };
        let err2 = if e2 <= dx {
            err1 + dx
        } else {
            err1
        };
        let yn = if e2 <= dx {
            y + sy
        } else {
            y
        };
        pixel_at(r, x, y, p) + line_walk(r, xn, yn, err2, x1, y1, dx, dy, sx, sy, p, (fuel - 1) as nat)
    }
}

/// The pixels of the line from `(x0, y0)` to `(x1, y1)` in the button's
/// coordinates, as Bresenham's walk visits them, each cut to the button.
/// (The walk reaches the far end within `|x1 - x0| + |y1 - y0|` steps, so the
/// bound on its length cuts nothing.)
pub open spec fn spec_line_ops(r: Rect, x0: int, y0: int, x1: int, y1: int, p: Pixel) -> Seq<PaintView> {
    let dx = if x1 >= x0 {
        x1 - x0
    } else {
        x0 - x1
    };
    let dy = if y1 >= y0 {
        y0 - y1
    } else {
        y1 - y0
    };
    let sx = if x0 < x1 {
        1int
    } else {
        -1int
    };
    let sy = if y0 < y1 {
        1int
    } else {
        -1int
    };
    line_walk(r, x0, y0, dx + dy, x1, y1, dx, dy, sx, sy, p, (dx - dy + 1) as nat)
}

/// A rect a button can be drawn in: at or right of column 0 and at or below
/// row 0, its far edges within `i32`.
pub open spec fn drawable(r: Rect) -> bool {
    &&& r.x >= 0
    &&& r.y >= 0
    &&& r.x + r.width <= i32::MAX
    &&& r.y + r.height <= i32::MAX
}


fn cut_i64(v: i64, limit: i64) -> (r: i64)
    requires
        0 <= limit,
    ensures
        r == cut(v as int, limit as int),
{
    if v < 0 {
        0
    } else if v > limit {
        limit
    } else {
        v
    }
}

fn half_i64(v: i64) -> (r: i64)
    requires
        v > i64::MIN,
    ensures
        r == half(v as int),
{
    if v >= 0 {
        v / 2
    } else {
        -((-v) / 2)
    }
}

/// Append a box of the button (in its own coordinates), cut to it.
fn push_local_box(ops: &mut Vec<Paint>, r: Rect, x0: i64, y0: i64, x1: i64, y1: i64, p: Pixel)
    requires
        drawable(r),
    ensures
        paint_views(final(ops)@) == paint_views(old(ops)@) + local_box(r, x0 as int, y0 as int, x1 as int, y1 as int, p),
        ops_wf(paint_views(old(ops)@), r.width as int) ==> ops_wf(paint_views(final(ops)@), r.width as int),
{
    let w = r.width as i64;
    let h = r.height as i64;
    let ghost before = paint_views(ops@);
    push_fill_box(ops, r.x as i64 + cut_i64(x0, w), r.y as i64 + cut_i64(y0, h), r.x as i64 + cut_i64(x1, w), r.y as i64 + cut_i64(y1, h), r.width, p);
    proof {
        lemma_draw_wf(r.width as int);
        if ops_wf(before, r.width as int) {
            lemma_ops_wf_append(before, local_box(r, x0 as int, y0 as int, x1 as int, y1 as int, p), r.width as int);
        }
    }
}

fn copy_string(s: &String) -> (r: String)
    ensures
        r@ == s@,
{
    String::from_str(s.as_str())
}

impl ButtonWidget {
    /// What to read from the widget's Thing: text, target, icon name,
    /// whether to show the label, binding and index.
    pub fn props_request(widget_id: u128) -> (r: GraphPropsGetRequest)
        ensures
            r.node == widget_id,
            r.keys@ == seq![Symbol(TEXT), Symbol(TARGET), Symbol(ICON_NAME), Symbol(SHOW_LABEL), Symbol(BINDS), Symbol(BIND_INDEX)],
    {
        let mut keys: Vec<Symbol> = Vec::new();
        keys.push(Symbol(TEXT));
        keys.push(Symbol(TARGET));
        keys.push(Symbol(ICON_NAME));
        keys.push(Symbol(SHOW_LABEL));
        keys.push(Symbol(BINDS));
        keys.push(Symbol(BIND_INDEX));
        GraphPropsGetRequest { node: widget_id, keys }
    }

    /// The icon name a Thing read as `props` asks for, if any.
    pub fn icon_name(props: Option<&SymbolMap>) -> (r: Option<String>)
        ensures
            match r {
                Some(n) => n@.len() > 0 && text_or(props_view(props), ICON_NAME, Seq::empty()) == n@,
                None => text_or(props_view(props), ICON_NAME, Seq::empty()).len() == 0,
            },
    {
        proof {
            reveal_strlit("");
        }
        let n = prop_text_or(props, ICON_NAME, "");
        if n.unicode_len() == 0 {
            None
        } else {
            Some(n)
        }
    }

    /// The state of a button whose Thing read as `props`, with `icon` what
    /// `load_icon` gave for its icon name.
    pub fn init(props: Option<&SymbolMap>, icon: Option<IconPath>) -> (s: State)
        ensures
            s@ == spec_init(
                props_view(props),
                match icon {
                    Some(i) => Some(i@),
                    None => None,
                },
            ),
    {
        proof {
            reveal_strlit("");
        }
        let label = prop_text_or(props, TEXT, "Btn");
        let target = prop_text_or(props, TARGET, "");
        let icon_name = Self::icon_name(props);
        let icon = match icon_name {
            Some(_) => icon,
            None => None,
        };
        let (show_label, bind_node, bind_index) = match props {
            Some(p) => (
                match get_bool(p, SHOW_LABEL) {
                    Some(b) => b,
                    None => true,
                },
                get_uuid(p, BINDS),
                get_i64(p, BIND_INDEX),
            ),
            None => (true, None, None),
        };
        let s = State { label, target, pressed: false, hovered: false, focused: false, icon_name, icon, show_label, bind_node, bind_index };
        proof {
            assert(""@ =~= Seq::<char>::empty());
            assert(s@ == spec_init(
                props_view(props),
                match icon {
                    Some(i) => Some(i@),
                    None => None,
                },
            )) by {
                assert(s@.icon_name == spec_init(props_view(props), match icon {
                    Some(i) => Some(i@),
                    None => None,
                }).icon_name);
            }
        }
        s
    }

    fn activate(state: &State) -> (a: Vec<ButtonAction>)
        ensures
            actions_view(a@) == spec_activate(state@),
    {
        let mut a: Vec<ButtonAction> = Vec::new();
        match (state.bind_node, state.bind_index) {
            (Some(n), Some(i)) => {
                let mut props = SymbolMap::new();
                props.insert(Symbol(SELECTED_INDEX), Value::I64(i));
                a.push(ButtonAction::SetProps { node: n, props });
                proof {
                    assert(props@ =~= map![SELECTED_INDEX => ValueView::I64(i)]);
                }
            },
            _ => {},
        }
        let ghost first = actions_view(a@);
        if state.target.unicode_len() > 0 {
            let mut fields = SymbolMap::new();
            fields.insert(Symbol(PACKAGE), Value::Text(copy_string(&state.target)));
            fields.insert(Symbol(NAME), Value::Text(copy_string(&state.label)));
            proof {
                assert(fields@ =~= map![PACKAGE => ValueView::Text(state.target@), NAME => ValueView::Text(state.label@)]);
            }
            a.push(ButtonAction::Launch { fields });
        }
        proof {
            assert(actions_view(a@) =~= spec_activate(state@));
        }
        a
    }

    /// React to input; the result is what the button asks for.
    pub fn handle_event(state: &mut State, event: WidgetEvent) -> (a: Vec<ButtonAction>)
        ensures
            (final(state)@, actions_view(a@)) == spec_event(old(state)@, event),
    {
        match event {
            WidgetEvent::Input(InputEvent::MouseDown { .. }) => {
                state.pressed = true;
                let a: Vec<ButtonAction> = Vec::new();
                proof {
                    assert(actions_view(a@) =~= Seq::<ActionView>::empty());
                }
                a
            },
            WidgetEvent::Input(InputEvent::MouseUp { .. }) => {
                if state.pressed {
                    let a = Self::activate(state);
                    state.pressed = false;
                    a
                } else {
                    let a: Vec<ButtonAction> = Vec::new();
                    proof {
                        assert(actions_view(a@) =~= Seq::<ActionView>::empty());
                    }
                    a
                }
            },
            WidgetEvent::Input(InputEvent::KeyDown { key }) => {
                if key == 0x454e00 || key == 0x202000 {
                    Self::activate(state)
                } else {
                    let a: Vec<ButtonAction> = Vec::new();
                    proof {
                        assert(actions_view(a@) =~= Seq::<ActionView>::empty());
                    }
                    a
                }
            },
            WidgetEvent::Input(InputEvent::MouseMove { .. }) => {
                state.hovered = true;
                let a: Vec<ButtonAction> = Vec::new();
                proof {
                    assert(actions_view(a@) =~= Seq::<ActionView>::empty());
                }
                a
            },
            _ => {
                let a: Vec<ButtonAction> = Vec::new();
                proof {
                    assert(actions_view(a@) =~= Seq::<ActionView>::empty());
                }
                a
            },
        }
    }

    /// The face and bevel of the button, drawn before its icon.
    pub fn frame_ops(state: &State, rect: Rect) -> (ops: Vec<Paint>)
        requires
            drawable(rect),
        ensures
            paint_views(ops@) == spec_frame_ops(state@, rect),
            ops_wf(paint_views(ops@), rect.width as int),
    {
        let w = rect.width as i64;
        let h = rect.height as i64;
        let ink = argb(0xff00_0000);
        let light = argb(0xffff_ffff);
        let dark = argb(0xff40_4040);
        let face: u32 = if state.pressed {
            0xffa0_a0a0
        } else if state.hovered {
            0xffe0_e0e0
        } else {
            0xffc0_c0c0
        };
        let mut ops = no_ops();
        proof {
            assert(ops_wf(paint_views(ops@), w as int));
        }
        push_local_box(&mut ops, rect, 0, 0, w, h, argb(face));
        push_local_box(&mut ops, rect, 0, 0, w, 1, ink);
        push_local_box(&mut ops, rect, 0, h - 1, w, h, ink);
        push_local_box(&mut ops, rect, 0, 0, 1, h, ink);
        push_local_box(&mut ops, rect, w - 1, 0, w, h, ink);
        if state.pressed {
            push_local_box(&mut ops, rect, 1, 1, w - 1, 2, dark);
            push_local_box(&mut ops, rect, 1, 1, 2, h - 1, dark);
        } else {
            push_local_box(&mut ops, rect, 1, 1, w - 1, 2, light);
            push_local_box(&mut ops, rect, 1, 1, 2, h - 1, light);
            push_local_box(&mut ops, rect, 1, h - 2, w - 1, h - 1, dark);
            push_local_box(&mut ops, rect, w - 2, 1, w - 1, h - 1, dark);
        }
        proof {
            assert(paint_views(ops@) =~= spec_frame_ops(state@, rect));
        }
        ops
    }

    /// Where the icon goes, in the button's coordinates, when it has one.
    pub fn icon_origin(state: &State, rect: Rect) -> (r: Option<(i64, i64)>)
        requires
            drawable(rect),
        ensures
            match r {
                Some((x, y)) => spec_icon_origin(state@, rect) == Some((x as int, y as int)),
                None => spec_icon_origin(state@, rect) is None,
            },
    {
        let off: i64 = if state.pressed {
            1
        } else {
            0
        };
        match &state.icon {
            Some(i) => {
                let x = if state.show_label {
                    ICON_PADDING
                } else {
                    half_i64(rect.width as i64 - i.width as i64)
                };
                Some((x + off, half_i64(rect.height as i64 - i.height as i64) + off))
            },
            None => None,
        }
    }

    /// The label and focus ring, drawn over the icon.
    pub fn overlay_ops(state: &State, rect: Rect) -> (ops: Vec<Paint>)
        requires
            drawable(rect),
            state.label@.len() < 0x100_0000,
            state@.icon matches Some(i) ==> i.width <= 0x1_0000,
        ensures
            paint_views(ops@) == spec_overlay_ops(state@, rect),
            ops_wf(paint_views(ops@), rect.width as int),
    {
        let w = rect.width as i64;
        let h = rect.height as i64;
        let ink = argb(0xff00_0000);
        let off: i64 = if state.pressed {
            1
        } else {
            0
        };
        let mut ops = no_ops();
        if state.show_label {
            let lx: i64 = match &state.icon {
                Some(i) => ICON_PADDING + i.width as i64 + ICON_PADDING,
                None => {
                    let tw = measure_text_width(state.label.as_str(), DEFAULT_GLYPH_WIDTH);
                    proof {
                        crate::raster::lemma_text_width_bounds(state.label@, DEFAULT_GLYPH_WIDTH as int);
                    }
                    half_i64(w - tw)
                },
            };
            let ly = half_i64(h - TEXT_HEIGHT);
            let st = TextStyle {
                eight_columns: false,
                advance: Advance::WidthOrFixed,
                multiline: false,
                stop: Stop::Never,
                clip: rect_clip(rect),
                pixel: ink,
            };
            push_text(&mut ops, state.label.as_str(), rect.x as i64 + lx + off, rect.y as i64 + ly + off, st);
            proof {
                lemma_draw_wf(w as int);
                assert(st == spec_label_style(rect));
            }
        }
        let ghost head = paint_views(ops@);
        proof {
            lemma_draw_wf(w as int);
            if !state.show_label {
                assert(head =~= Seq::<PaintView>::empty());
            }
            assert(ops_wf(head, w as int));
        }
        if state.focused {
            let fw = w - 6;
            let fh = h - 6;
            let mut i: i64 = 0;
            while i < fw
                invariant
                    drawable(rect),
                    w == rect.width,
                    h == rect.height,
                    fw == w - 6,
                    fh == h - 6,
                    0 <= i,
                    fw >= 0 ==> i <= fw + 1,
                    ink == spec_argb(0xff00_0000),
                    ops_wf(paint_views(ops@), w as int),
                    head + ring_rows(rect, fw as int, fh as int, 0) == paint_views(ops@) + ring_rows(rect, fw as int, fh as int, i as int),
                decreases fw + 1 - i,
            {
                let ghost before = paint_views(ops@);
                push_local_box(&mut ops, rect, 3 + i, 3, 4 + i, 4, ink);
                push_local_box(&mut ops, rect, 3 + i, 3 + fh - 1, 4 + i, 3 + fh, ink);
                proof {
                    let a = pixel_at(rect, 3 + i, 3, ink);
                    let b = pixel_at(rect, 3 + i, 3 + fh - 1, ink);
                    let rest = ring_rows(rect, fw as int, fh as int, i + 2);
                    assert(ring_rows(rect, fw as int, fh as int, i as int) == a + b + rest);
                    assert(before + (a + b + rest) =~= before + a + b + rest);
                }
                i = i + 2;
            }
            proof {
                assert(ring_rows(rect, fw as int, fh as int, i as int) =~= Seq::<PaintView>::empty());
                assert(paint_views(ops@) + Seq::<PaintView>::empty() =~= paint_views(ops@));
            }
            let ghost mid = paint_views(ops@);
            let mut j: i64 = 0;
            while j < fh
                invariant
                    drawable(rect),
                    w == rect.width,
                    h == rect.height,
                    fw == w - 6,
                    fh == h - 6,
                    0 <= j,
                    fh >= 0 ==> j <= fh + 1,
                    ink == spec_argb(0xff00_0000),
                    ops_wf(paint_views(ops@), w as int),
                    mid + ring_cols(rect, fw as int, fh as int, 0) == paint_views(ops@) + ring_cols(rect, fw as int, fh as int, j as int),
                decreases fh + 1 - j,
            {
                let ghost before = paint_views(ops@);
                push_local_box(&mut ops, rect, 3, 3 + j, 4, 4 + j, ink);
                push_local_box(&mut ops, rect, 3 + fw - 1, 3 + j, 3 + fw, 4 + j, ink);
                proof {
                    let a = pixel_at(rect, 3, 3 + j, ink);
                    let b = pixel_at(rect, 3 + fw - 1, 3 + j, ink);
                    let rest = ring_cols(rect, fw as int, fh as int, j + 2);
                    assert(ring_cols(rect, fw as int, fh as int, j as int) == a + b + rest);
                    assert(before + (a + b + rest) =~= before + a + b + rest);
                }
                j = j + 2;
            }
            proof {
                assert(ring_cols(rect, fw as int, fh as int, j as int) =~= Seq::<PaintView>::empty());
                assert(paint_views(ops@) + Seq::<PaintView>::empty() =~= paint_views(ops@));
                assert(paint_views(ops@) =~= head + (ring_rows(rect, fw as int, fh as int, 0) + ring_cols(rect, fw as int, fh as int, 0)));
            }
        } else {
            proof {
                assert(head + Seq::<PaintView>::empty() =~= head);
            }
        }
        ops
    }

    /// The pixels of an outline segment from `(x0, y0)` to `(x1, y1)` (its
    /// spans within `i32`), drawn over the button in one pixel value.
    pub fn line_ops(rect: Rect, x0: i32, y0: i32, x1: i32, y1: i32, p: Pixel) -> (ops: Vec<Paint>)
        requires
            drawable(rect),
            -0x7fff_ffff <= x1 - x0 <= 0x7fff_ffff,
            -0x7fff_ffff <= y1 - y0 <= 0x7fff_ffff,
        ensures
            paint_views(ops@) == spec_line_ops(rect, x0 as int, y0 as int, x1 as int, y1 as int, p),
            ops_wf(paint_views(ops@), rect.width as int),
    {
        let dx: i128 = if x1 >= x0 {
            x1 as i128 - x0 as i128
        } else {
            x0 as i128 - x1 as i128
        };
        let dy: i128 = if y1 >= y0 {
            y0 as i128 - y1 as i128
        } else {
            y1 as i128 - y0 as i128
        };
        let sx: i32 = if x0 < x1 {
            1
        } else {
            -1
        };
        let sy: i32 = if y0 < y1 {
            1
        } else {
            -1
        };
        let big_d: i128 = -dy;
        let ghost fuel: nat = (dx - dy + 1) as nat;
        let mut err: i128 = dx + dy;
        let mut x: i32 = x0;
        let mut y: i32 = y0;
        let mut k: i128 = 0;
        let mut ops = no_ops();
        let ghost full = spec_line_ops(rect, x0 as int, y0 as int, x1 as int, y1 as int, p);
        proof {
            assert(ops_wf(paint_views(ops@), rect.width as int));
            assert(paint_views(ops@) + full =~= full);
            assert(sx * (x - x0) == 0 && sy * (y - y0) == 0);
            assert((sx * (x - x0)) * dy == 0 && (sy * (y - y0)) * dx == 0) by (nonlinear_arith)
                requires
                    sx * (x - x0) == 0,
                    sy * (y - y0) == 0,
            ;
        }
        loop
            invariant_except_break
                drawable(rect),
                0 <= dx <= 0x7fff_ffff,
                0 <= big_d <= 0x7fff_ffff,
                dy == -big_d,
                sx == (if x0 < x1 { 1int } else { -1int }),
                sy == (if y0 < y1 { 1int } else { -1int }),
                dx == (if x1 >= x0 { x1 - x0 } else { x0 - x1 }),
                big_d == (if y1 >= y0 { y1 - y0 } else { y0 - y1 }),
                fuel == dx + big_d + 1,
                0 <= sx * (x - x0) <= dx,
                0 <= sy * (y - y0) <= big_d,
                x1 == x0 + sx * dx,
                y1 == y0 + sy * big_d,
                err == dx + dy + (sx * (x - x0)) * dy + (sy * (y - y0)) * dx,
                0 <= k <= sx * (x - x0) + sy * (y - y0),
                ops_wf(paint_views(ops@), rect.width as int),
                full == paint_views(ops@) + line_walk(rect, x as int, y as int, err as int, x1 as int, y1 as int, dx as int, dy as int, sx as int, sy as int, p, (fuel - k) as nat),
            ensures
                paint_views(ops@) == full,
                ops_wf(paint_views(ops@), rect.width as int),
            decreases (dx - sx * (x - x0)) + (big_d - sy * (y - y0)),
        {
            let ghost before = paint_views(ops@);
            let ghost rest = line_walk(rect, x as int, y as int, err as int, x1 as int, y1 as int, dx as int, dy as int, sx as int, sy as int, p, (fuel - k) as nat);
            push_local_box(&mut ops, rect, x as i64, y as i64, x as i64 + 1, y as i64 + 1, p);
            if x == x1 && y == y1 {
                proof {
                    assert(fuel - k >= 1);
                    assert(rest == pixel_at(rect, x as int, y as int, p));
                }
                break;
            }
            let ghost xi = sx * (x - x0);
            let ghost yi = sy * (y - y0);
            proof {
                assert(-0x1_0000_0000_0000_0000 <= err <= 0x1_0000_0000_0000_0000) by (nonlinear_arith)
                    requires
                        err == dx + dy + xi * dy + yi * dx,
                        0 <= dx <= 0x7fff_ffff,
                        0 <= big_d <= 0x7fff_ffff,
                        dy == -big_d,
                        0 <= xi <= dx,
                        0 <= yi <= big_d,
                ;
            }
            let e2 = 2 * err;
            proof {
                if xi == dx && yi < big_d {
                    assert(e2 < dy) by (nonlinear_arith)
                        requires
                            e2 == 2 * err,
                            err == dx + dy + xi * dy + yi * dx,
                            dy == -big_d,
                            xi == dx,
                            0 <= yi <= big_d - 1,
                            0 <= dx,
                    ;
                }
                if yi == big_d && xi < dx {
                    assert(e2 > dx) by (nonlinear_arith)
                        requires
                            e2 == 2 * err,
                            err == dx + dy + xi * dy + yi * dx,
                            dy == -big_d,
                            yi == big_d,
                            0 <= xi <= dx - 1,
                            0 <= big_d,
                    ;
                }
                if xi == dx && yi == big_d {
                    assert(x == x1 && y == y1) by (nonlinear_arith)
                        requires
                            xi == sx * (x - x0),
                            yi == sy * (y - y0),
                            x1 == x0 + sx * dx,
                            y1 == y0 + sy * big_d,
                            xi == dx,
                            yi == big_d,
                            sx == 1 || sx == -1,
                            sy == 1 || sy == -1,
                    ;
                }
                assert(fuel - k >= 1);
                assert(rest == pixel_at(rect, x as int, y as int, p) + line_walk(
                    rect,
                    (if e2 >= dy { x + sx } else { x as int }),
                    (if e2 <= dx { y + sy } else { y as int }),
                    (if e2 <= dx { (if e2 >= dy { err + dy } else { err as int }) + dx } else { (if e2 >= dy { err + dy } else { err as int }) }),
                    x1 as int,
                    y1 as int,
                    dx as int,
                    dy as int,
                    sx as int,
                    sy as int,
                    p,
                    (fuel - k - 1) as nat,
                ));
            }
            let ghost xo = x;
            let ghost yo = y;
            let ghost erro = err;
            proof {
                if e2 >= dy {
                    assert(xi < dx);
                    assert(i32::MIN <= x + sx <= i32::MAX) by (nonlinear_arith)
                        requires
                            xi == sx * (x - x0),
                            x1 == x0 + sx * dx,
                            0 <= xi < dx,
                            sx == 1 || sx == -1,
                            i32::MIN <= x0 <= i32::MAX,
                            i32::MIN <= x1 <= i32::MAX,
                    ;
                }
                if e2 <= dx {
                    assert(yi < big_d);
                    assert(i32::MIN <= y + sy <= i32::MAX) by (nonlinear_arith)
                        requires
                            yi == sy * (y - y0),
                            y1 == y0 + sy * big_d,
                            0 <= yi < big_d,
                            sy == 1 || sy == -1,
                            i32::MIN <= y0 <= i32::MAX,
                            i32::MIN <= y1 <= i32::MAX,
                    ;
                }
            }
            if e2 >= dy {
                err = err + dy;
                x = x + sx;
            }
            if e2 <= dx {
                err = err + dx;
                y = y + sy;
            }
            proof {
                let xi2 = if e2 >= dy { xi + 1 } else { xi };
                let yi2 = if e2 <= dx { yi + 1 } else { yi };
                assert(sx * (x - x0) == xi2 && sy * (y - y0) == yi2) by (nonlinear_arith)
                    requires
                        xi == sx * (xo - x0),
                        yi == sy * (yo - y0),
                        sx == 1 || sx == -1,
                        sy == 1 || sy == -1,
                        x == (if e2 >= dy { xo + sx } else { xo as int }),
                        y == (if e2 <= dx { yo + sy } else { yo as int }),
                        xi2 == (if e2 >= dy { xi + 1 } else { xi }),
                        yi2 == (if e2 <= dx { yi + 1 } else { yi }),
                ;
                assert(err == dx + dy + xi2 * dy + yi2 * dx) by (nonlinear_arith)
                    requires
                        erro == dx + dy + xi * dy + yi * dx,
                        err == (if e2 <= dx { (if e2 >= dy { erro + dy } else { erro as int }) + dx } else { (if e2 >= dy { erro + dy } else { erro as int }) }),
                        xi2 == (if e2 >= dy { xi + 1 } else { xi }),
                        yi2 == (if e2 <= dx { yi + 1 } else { yi }),
                ;
                assert(e2 >= dy || e2 <= dx);
                assert(before + (pixel_at(rect, xo as int, yo as int, p) + line_walk(rect, x as int, y as int, err as int, x1 as int, y1 as int, dx as int, dy as int, sx as int, sy as int, p, (fuel - k - 1) as nat))
                    =~= (before + pixel_at(rect, xo as int, yo as int, p)) + line_walk(rect, x as int, y as int, err as int, x1 as int, y1 as int, dx as int, dy as int, sx as int, sy as int, p, (fuel - k - 1) as nat));
            }
            k = k + 1;
        }
        ops
    }

    /// The size the button wants, at least `base_height` high.
    pub fn intrinsic_size(state: &State, base_height: u32) -> (r: (u32, u32))
        requires
            state.label@.len() < 0x100_0000,
            state@.icon matches Some(i) ==> i.width <= 0x1_0000 && i.height <= 0x1_0000,
        ensures
            (r.0 as int, r.1 as int) == spec_intrinsic_size(state@, base_height),
    {
        let tw: i64 = if state.show_label {
            measure_text_width(state.label.as_str(), DEFAULT_GLYPH_WIDTH)
        } else {
            0
        };
        proof {
            if state.show_label {
                crate::raster::lemma_text_width_bounds(state.label@, DEFAULT_GLYPH_WIDTH as int);
            }
        }
        let (iw, ih): (i64, i64) = match &state.icon {
            Some(i) => (i.width as i64, i.height as i64),
            None => (0, 0),
        };
        let lh: i64 = if state.show_label {
            TEXT_HEIGHT
        } else {
            0
        };
        let content_h = if ih > lh {
            ih
        } else {
            lh
        };
        let width: i64 = if state.icon.is_some() {
            if state.show_label {
                ICON_PADDING + iw + ICON_PADDING + tw + ICON_PADDING
            } else {
                iw + ICON_PADDING * 2
            }
        } else if state.show_label {
            tw + LABEL_SIDE_PADDING * 2
        } else {
            MIN_BUTTON_WIDTH
        };
        let needed = content_h + ICON_PADDING * 2;
        let needed1 = if needed > 1 {
            needed
        } else {
            1
        };
        let h: i64 = if (base_height as i64) > needed1 {
            base_height as i64
        } else {
            needed1
        };
        let w: i64 = if width > MIN_BUTTON_WIDTH {
            width
        } else {
            MIN_BUTTON_WIDTH
        };
        (w as u32, h as u32)
    }
}

} // verus!
