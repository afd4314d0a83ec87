//! A drop-down list: a box showing the selected option that opens into a
//! menu of options. Before each event the widget re-reads its Thing (its
//! options, selected index, label, binding and height); what it writes back
//! (its height while open, its selection, and the selection of the Thing it
//! is bound to) comes out as property writes for its owner to make.

use vstd::prelude::*;
use crate::abi::{extract_text, spec_extract_text, value_view, SymbolMap, Value, ValueView};
use crate::canon::{Symbol, HEIGHT, SELECTED_INDEX, TEXT};
use crate::layout::BINDS;
use crate::records::GraphPropsGetRequest;
use crate::symtext::{spec_symbol_string, symbol_string, value_text};
use crate::thingable::{field_u64, get_u64};
use crate::widget_abi::{
    fill_box, lemma_draw_wf, lemma_ops_wf_append, no_ops, props_view, push_fill_box, push_text, style_fits, text_ops, Advance, Clip,
    InputEvent, Stop, TextStyle, WidgetEvent,
};
use crate::raster::{argb, ops_wf, paint_all, paint_views, render, spec_argb, Paint, PaintView, Pixel, Rect};
use vstd::math::{max, min};

verus! {

/// The options of a drop-down (`OPT`): a list of values.
pub const OPTIONS: u32 = 0x4f5054;

/// The value of the selected item, written to a bound Thing (`IVL`).
pub const ITEM_VALUE: u32 = 0x49564c;

/// The height of a menu row.
pub const OPTION_HEIGHT: i64 = 28;

/// An option: its label and the value it stands for.
pub struct DropOption {
    pub label: String,
    pub value: Value,
}

/// What an option denotes.
pub struct OptionView {
    pub label: Seq<char>,
    pub value: ValueView,
}

/// The views of a list of options.
pub open spec fn options_view(o: Seq<DropOption>) -> Seq<OptionView> {
    o.map_values(|x: DropOption| OptionView { label: x.label@, value: value_view(x.value) })
}

/// A drop-down's state.
pub struct State {
    pub widget_id: u128,
    pub options: Vec<DropOption>,
    pub selected_index: usize,
    pub pressed: bool,
    pub open: bool,
    pub label: Option<String>,
    pub collapsed_height: u32,
    pub binds: Option<u128>,
    pub hovered_index: Option<usize>,
}

/// What a drop-down's state denotes.
pub struct StateView {
    pub widget_id: u128,
    pub options: Seq<OptionView>,
    pub selected_index: usize,
    pub pressed: bool,
    pub open: bool,
    pub label: Option<Seq<char>>,
    pub collapsed_height: u32,
    pub binds: Option<u128>,
    pub hovered_index: Option<usize>,
}

impl View for State {
    type V = StateView;

    open spec fn view(&self) -> StateView {
        StateView {
            widget_id: self.widget_id,
            options: options_view(self.options@),
            selected_index: self.selected_index,
            pressed: self.pressed,
            open: self.open,
            label: match &self.label {
                Some(l) => Some(l@),
                None => None,
            },
            collapsed_height: self.collapsed_height,
            binds: self.binds,
            hovered_index: self.hovered_index,
        }
    }
}

/// A property write a drop-down asks for.
pub struct Write {
    pub node: u128,
    pub props: SymbolMap,
}

/// What a write denotes.
pub struct WriteView {
    pub node: u128,
    pub props: Map<u32, ValueView>,
}

/// The views of a list of writes.
pub open spec fn writes_view(w: Seq<Write>) -> Seq<WriteView> {
    w.map_values(|x: Write| WriteView { node: x.node, props: x.props@ })
}

/// The option a label stands for: its text as label and value.
pub open spec fn text_option(l: Seq<char>) -> OptionView {
    OptionView { label: l, value: ValueView::Text(l) }
}

/// The options a drop-down has when its Thing gives none.
pub open spec fn default_options() -> Seq<OptionView> {
    seq![text_option("None"@), text_option("Slide"@), text_option("Fade"@), text_option("Zoom"@)]
}

/// The label of an option value: its text, else the text of a flag or a
/// number, else a symbol's characters; other values give no option.
pub open spec fn option_label(v: ValueView) -> Option<Seq<char>> {
    match spec_extract_text(v) {
        Some(t) => Some(t),
        None => match v {
            ValueView::Bool(_) | ValueView::I64(_) | ValueView::U64(_) => Some(value_text(v, false)),
            ValueView::Symbol(s) => Some(spec_symbol_string(s)),
            _ => None,
        },
    }
}

/// The options of a list of values: those that have a label, in order.
pub open spec fn parse_options(items: Seq<ValueView>) -> Seq<OptionView>
    decreases items.len(),
{
    if items.len() == 0 {
        Seq::empty()
    } else {
        let rest = parse_options(items.drop_last());
        match option_label(items.last()) {
            Some(l) => rest.push(OptionView { label: l, value: items.last() }),
            None => rest,
        }
    }
}

/// The height of an open drop-down: its collapsed height and a row per
/// option, saturating.
pub open spec fn expanded_height(s: StateView) -> u32 {
    let rows: int = if s.options.len() * 28 > usize::MAX {
        usize::MAX as int
    } else {
        (s.options.len() * 28) as int
    };
    let oh = rows as u32;
    if s.collapsed_height + oh > u32::MAX {
        u32::MAX
    } else {
        (s.collapsed_height + oh) as u32
    }
}

/// The write of a drop-down's height.
pub open spec fn height_write(s: StateView, h: u32) -> WriteView {
    WriteView { node: s.widget_id, props: map![HEIGHT => ValueView::U64(h as u64)] }
}

/// A drop-down's state after reading its Thing (when it could be read): a
/// non-empty option list, a selected index (at least 0, at most the last
/// option), label, binding, and (while closed) a non-zero height replace
/// what it held. Then it has at least the default options, a selected and a
/// hovered index within them, and, while open, asks to be as high as its
/// menu.
/// What reading the Thing's properties `p` gives a drop-down: a non-empty
/// option list, a selected index (at least 0, at most the last option),
/// label, binding, and (while closed) a non-zero height replace what it held.
pub open spec fn spec_read(s: StateView, p: Map<u32, ValueView>) -> StateView {
    let options = if p.contains_key(OPTIONS) && p[OPTIONS] is List && parse_options(p[OPTIONS]->List_0).len() > 0 {
        parse_options(p[OPTIONS]->List_0)
    } else {
        s.options
    };
    let selected = if p.contains_key(SELECTED_INDEX) && p[SELECTED_INDEX] is I64 {
        let idx = (if p[SELECTED_INDEX]->I64_0 > 0 {
            p[SELECTED_INDEX]->I64_0
        } else {
            0
        }) as usize;
        if options.len() > 0 {
            if idx < options.len() {
                idx
            } else {
                (options.len() - 1) as usize
            }
        } else {
            0
        }
    } else {
        s.selected_index
    };
    let label = match (if p.contains_key(TEXT) {
        spec_extract_text(p[TEXT])
    } else {
        None
    }) {
        Some(t) => Some(t),
        None => s.label,
    };
    let binds = if p.contains_key(BINDS) && p[BINDS] is Uuid {
        Some(p[BINDS]->Uuid_0)
    } else {
        s.binds
    };
    let collapsed = match field_u64(p, HEIGHT) {
        Some(h) => if !s.open && (h as u32) > 0 {
            h as u32
        } else {
            s.collapsed_height
        },
        None => s.collapsed_height,
    };
    StateView { options, selected_index: selected, label, binds, collapsed_height: collapsed, ..s }
}

pub open spec fn spec_refresh(s: StateView, props: Option<Map<u32, ValueView>>) -> (StateView, Seq<WriteView>) {
    let s1 = match props {
        Some(p) => spec_read(s, p),
        None => s,
    };
    let options = if s1.options.len() == 0 {
        default_options()
    } else {
        s1.options
    };
    let selected = if s1.selected_index >= options.len() {
        (options.len() - 1) as usize
    } else {
        s1.selected_index
    };
    let hovered = match s1.hovered_index {
        Some(h) => if h >= options.len() {
            None
        } else {
            Some(h)
        },
        None => None,
    };
    let s2 = StateView { options, selected_index: selected, hovered_index: hovered, ..s1 };
    (s2, if s2.open {
        seq![height_write(s2, expanded_height(s2))]
    } else {
        Seq::empty()
    })
}

/// The label of the selected option (else the drop-down's label, else
/// `Select`).
pub open spec fn current_label(s: StateView) -> Seq<char> {
    if s.selected_index < s.options.len() {
        s.options[s.selected_index as int].label
    } else {
        match s.label {
            Some(l) => l,
            None => "Select"@,
        }
    }
}

/// The value of the selected option (else the current label as text).
pub open spec fn current_value(s: StateView) -> ValueView {
    if s.selected_index < s.options.len() {
        s.options[s.selected_index as int].value
    } else {
        ValueView::Text(current_label(s))
    }
}

/// The writes that publish a selection: index and label on the drop-down's
/// Thing, and also the value on the Thing it is bound to.
pub open spec fn selection_writes(s: StateView) -> Seq<WriteView> {
    let idx = ValueView::I64(s.selected_index as i64);
    let label = ValueView::Text(current_label(s));
    seq![WriteView { node: s.widget_id, props: map![SELECTED_INDEX => idx, TEXT => label] }] + match s.binds {
        Some(b) => seq![WriteView { node: b, props: map![SELECTED_INDEX => idx, TEXT => label, ITEM_VALUE => current_value(s)] }],
        None => Seq::empty(),
    }
}

/// Selecting an option (cut to the last one) and publishing it.
pub open spec fn spec_select(s: StateView, index: int) -> (StateView, Seq<WriteView>) {
    let options = if s.options.len() == 0 {
        default_options()
    } else {
        s.options
    };
    let clamped = if index < options.len() {
        index
    } else {
        options.len() - 1
    };
    let s2 = StateView { options, selected_index: clamped as usize, ..s };
    (s2, selection_writes(s2))
}

/// Opening the menu: the selected option hovered, and the drop-down as high
/// as its menu.
pub open spec fn spec_open(s: StateView) -> (StateView, Seq<WriteView>) {
    let options = if s.options.len() == 0 {
        default_options()
    } else {
        s.options
    };
    let hovered = if s.selected_index < options.len() {
        s.selected_index
    } else {
        (options.len() - 1) as usize
    };
    let s2 = StateView { open: true, options, hovered_index: Some(hovered), ..s };
    (s2, seq![height_write(s2, expanded_height(s2))])
}

/// Closing the menu: nothing hovered, and the drop-down back to its
/// collapsed height.
pub open spec fn spec_close(s: StateView) -> (StateView, Seq<WriteView>) {
    let s2 = StateView { open: false, hovered_index: None, ..s };
    (s2, seq![height_write(s2, s2.collapsed_height)])
}

/// The option under row `y` of an open menu, if any.
pub open spec fn option_at(s: StateView, y: i32) -> Option<usize> {
    let in_menu = y - (s.collapsed_height as i32);
    if in_menu < 0 || in_menu / 28 >= s.options.len() {
        None
    } else {
        Some((in_menu / 28) as usize)
    }
}

/// Moving the focus by `delta` options (within the list): the hovered one
/// while open, else the selection.
pub open spec fn spec_move(s: StateView, delta: int) -> (StateView, Seq<WriteView>) {
    if s.options.len() == 0 {
        (s, Seq::empty())
    } else {
        let current: int = if s.open {
            match s.hovered_index {
                Some(h) => h as int,
                None => s.selected_index as int,
            }
        } else {
            s.selected_index as int
        };
        let last = s.options.len() - 1;
        let next = if current + delta < 0 {
            0
        } else if current + delta > last {
            last
        } else {
            current + delta
        };
        if s.open {
            (StateView { hovered_index: Some(next as usize), ..s }, Seq::empty())
        } else {
            spec_select(s, next)
        }
    }
}

/// The keys a drop-down reacts to.
pub open spec fn is_space(k: u32) -> bool {
    k == 0x20
}

/// A drop-down after an event (on its state as re-read), and the writes it
/// asks for: a press opens it (or, open, hovers the option under it); a
/// release over an option of the open menu selects it and closes the menu,
/// a release after a press on the closed box opens it; a move hovers;
/// Space or Enter selects the hovered option and closes, or opens; the
/// arrows move the focus; Home and End go to the first and last option;
/// Escape closes.
pub open spec fn spec_event(s0: StateView, props: Option<Map<u32, ValueView>>, e: WidgetEvent) -> (StateView, Seq<WriteView>) {
    let (s, w0) = spec_refresh(s0, props);
    let (s2, w) = match e {
        WidgetEvent::Input(InputEvent::MouseDown { y, .. }) => {
            let sp = StateView { pressed: y < (s.collapsed_height as i32), ..s };
            if sp.open {
                (StateView { hovered_index: option_at(sp, y), ..sp }, Seq::empty())
            } else {
                spec_open(sp)
            }
        },
        WidgetEvent::Input(InputEvent::MouseUp { y, .. }) => {
            let (s3, w3) = if s.open {
                let (sa, wa) = match option_at(s, y) {
                    Some(i) => spec_select(s, i as int),
                    None => (s, Seq::empty()),
                };
                let (sb, wb) = spec_close(sa);
                (sb, wa + wb)
            } else if s.pressed {
                spec_open(s)
            } else {
                (s, Seq::empty())
            };
            (StateView { pressed: false, ..s3 }, w3)
        },
        WidgetEvent::Input(InputEvent::MouseMove { y, .. }) => if s.open {
            (StateView { hovered_index: option_at(s, y), ..s }, Seq::empty())
        } else {
            (s, Seq::empty())
        },
        WidgetEvent::Input(InputEvent::KeyDown { key }) => if is_space(key) || key == 0x454e00 {
            if s.open {
                let idx = match s.hovered_index {
                    Some(h) => h,
                    None => s.selected_index,
                };
                let (sa, wa) = spec_select(s, idx as int);
                let (sb, wb) = spec_close(sa);
                (sb, wa + wb)
            } else {
                spec_open(s)
            }
        } else if key == 0x414400 {
            spec_move(s, 1)
        } else if key == 0x415500 {
            spec_move(s, -1)
        } else if key == 0x484d00 {
            if s.open {
                (StateView { hovered_index: Some(0), ..s }, Seq::empty())
            } else {
                spec_select(s, 0)
            }
        } else if key == 0x454400 {
            if s.options.len() > 0 {
                if s.open {
                    (StateView { hovered_index: Some((s.options.len() - 1) as usize), ..s }, Seq::empty())
                } else {
                    spec_select(s, s.options.len() - 1)
                }
            } else {
                (s, Seq::empty())
            }
        } else if key == 0x455300 {
            spec_close(s)
        } else {
            (s, Seq::empty())
        },
        WidgetEvent::Input(InputEvent::KeyUp { .. }) => (StateView { pressed: false, ..s }, Seq::empty()),
        _ => (s, Seq::empty()),
    };
    (s2, w0 + w)
}

/// Whether the arithmetic of an event stays within 32 bits: the row under
/// the pointer of an open menu, and the option count when moving by keys.
pub open spec fn event_fits(s: StateView, e: WidgetEvent) -> bool {
    match e {
        WidgetEvent::Input(InputEvent::MouseDown { y, .. }) => s.open ==> i32::MIN <= y - (s.collapsed_height as i32) <= i32::MAX,
        WidgetEvent::Input(InputEvent::MouseUp { y, .. }) => s.open ==> i32::MIN <= y - (s.collapsed_height as i32) <= i32::MAX,
        WidgetEvent::Input(InputEvent::MouseMove { y, .. }) => s.open ==> i32::MIN <= y - (s.collapsed_height as i32) <= i32::MAX,
        WidgetEvent::Input(InputEvent::KeyDown { key }) => (key == 0x414400 || key == 0x415500) ==> s.options.len() <= i32::MAX,
        _ => true,
    }
}

fn text_option_of(l: &str) -> (o: DropOption)
    ensures
        o.label@ == l@,
        value_view(o.value) == ValueView::Text(l@),
{
    DropOption { label: String::from_str(l), value: Value::text(l) }
}

fn default_option_list() -> (o: Vec<DropOption>)
    ensures
        options_view(o@) == default_options(),
        o@.len() == 4,
{
    let mut o: Vec<DropOption> = Vec::new();
    o.push(text_option_of("None"));
    o.push(text_option_of("Slide"));
    o.push(text_option_of("Fade"));
    o.push(text_option_of("Zoom"));
    proof {
        assert(options_view(o@) =~= default_options());
    }
    o
}

fn label_of(v: &Value) -> (r: Option<String>)
    ensures
        match r {
            Some(l) => option_label(value_view(*v)) == Some(l@),
            None => option_label(value_view(*v)) is None,
        },
{
    match extract_text(v) {
        Some(t) => Some(t),
        None => match v {
            Value::Bool(_) | Value::I64(_) | Value::U64(_) => Some(v.to_text(false)),
            Value::Symbol(sym) => Some(symbol_string(*sym)),
            _ => None,
        },
    }
}

fn parse_list(items: &Vec<Value>) -> (o: Vec<DropOption>)
    ensures
        options_view(o@) == parse_options(crate::abi::list_views(items@)),
{
    let ghost vs = crate::abi::list_views(items@);
    let mut o: Vec<DropOption> = Vec::new();
    let mut i: usize = 0;
    proof {
        crate::abi::lemma_list_views(items@);
        assert(vs.take(0) =~= Seq::<ValueView>::empty());
        assert(options_view(o@) =~= Seq::<OptionView>::empty());
    }
    while i < items.len()
        invariant
            i <= items@.len(),
            vs == crate::abi::list_views(items@),
            vs.len() == items@.len(),
            forall|j: int| 0 <= j < items@.len() ==> #[trigger] vs[j] == value_view(items@[j]),
            options_view(o@) == parse_options(vs.take(i as int)),
        decreases items@.len() - i,
    {
        proof {
            assert(vs.take(i + 1).drop_last() =~= vs.take(i as int));
            assert(vs.take(i + 1).last() == vs[i as int]);
            assert(vs[i as int] == value_view(items@[i as int]));
        }
        match label_of(&items[i]) {
            Some(l) => {
                let ghost before = options_view(o@);
                o.push(DropOption { label: l, value: items[i].copy() });
                proof {
                    assert(options_view(o@) =~= before.push(OptionView { label: l@, value: vs[i as int] }));
                }
            },
            None => {},
        }
        i = i + 1;
    }
    proof {
        assert(vs.take(i as int) =~= vs);
    }
    o
}

fn copy_options(o: &Vec<DropOption>) -> (r: Vec<DropOption>)
    ensures
        options_view(r@) == options_view(o@),
{
    let mut r: Vec<DropOption> = Vec::new();
    let mut i: usize = 0;
    while i < o.len()
        invariant
            i <= o@.len(),
            options_view(r@) == options_view(o@).take(i as int),
        decreases o@.len() - i,
    {
        let ghost before = options_view(r@);
        r.push(DropOption { label: String::from_str(o[i].label.as_str()), value: o[i].value.copy() });
        proof {
            assert(options_view(r@) =~= before.push(options_view(o@)[i as int]));
            assert(options_view(o@).take(i + 1) =~= options_view(o@).take(i as int).push(options_view(o@)[i as int]));
        }
        i = i + 1;
    }
    proof {
        assert(options_view(o@).take(i as int) =~= options_view(o@));
    }
    r
}

fn height_write_of(node: u128, h: u32) -> (w: Write)
    ensures
        w.node == node,
        w.props@ == map![HEIGHT => ValueView::U64(h as u64)],
{
    let mut props = SymbolMap::new();
    props.insert(Symbol(HEIGHT), Value::U64(h as u64));
    proof {
        assert(props@ =~= map![HEIGHT => ValueView::U64(h as u64)]);
    }
    Write { node, props }
}

fn push_write(out: &mut Vec<Write>, w: Write)
    ensures
        writes_view(final(out)@) == writes_view(old(out)@).push(WriteView { node: w.node, props: w.props@ }),
{
    out.push(w);
    proof {
        assert(writes_view(final(out)@) =~= writes_view(old(out)@).push(WriteView { node: w.node, props: w.props@ }));
    }
}

impl State {
    fn expanded(&self) -> (h: u32)
        ensures
            h == expanded_height(self@),
    {
        let n = self.options.len();
        let rows: usize = if n > usize::MAX / 28 {
            usize::MAX
        } else {
            n * 28
        };
        let oh = rows as u32;
        if self.collapsed_height as u64 + oh as u64 > u32::MAX as u64 {
            u32::MAX
        } else {
            self.collapsed_height + oh
        }
    }

    fn label_now(&self) -> (l: String)
        ensures
            l@ == current_label(self@),
    {
        if self.selected_index < self.options.len() {
            String::from_str(self.options[self.selected_index].label.as_str())
        } else {
            match &self.label {
                Some(l) => String::from_str(l.as_str()),
                None => String::from_str("Select"),
            }
        }
    }

    fn value_now(&self) -> (v: Value)
        ensures
            value_view(v) == current_value(self@),
    {
        if self.selected_index < self.options.len() {
            self.options[self.selected_index].value.copy()
        } else {
            Value::Text(self.label_now())
        }
    }

    fn publish(&self, out: &mut Vec<Write>)
        ensures
            writes_view(final(out)@) == writes_view(old(out)@) + selection_writes(self@),
    {
        let idx = self.selected_index as i64;
        let mut props = SymbolMap::new();
        props.insert(Symbol(SELECTED_INDEX), Value::I64(idx));
        props.insert(Symbol(TEXT), Value::Text(self.label_now()));
        let ghost before = writes_view(out@);
        let ghost lv = ValueView::Text(current_label(self@));
        proof {
            assert(props@ =~= map![SELECTED_INDEX => ValueView::I64(idx), TEXT => lv]);
        }
        push_write(out, Write { node: self.widget_id, props });
        match self.binds {
            Some(b) => {
                let mut bound = SymbolMap::new();
                bound.insert(Symbol(SELECTED_INDEX), Value::I64(idx));
                bound.insert(Symbol(TEXT), Value::Text(self.label_now()));
                bound.insert(Symbol(ITEM_VALUE), self.value_now());
                proof {
                    assert(bound@ =~= map![SELECTED_INDEX => ValueView::I64(idx), TEXT => lv, ITEM_VALUE => current_value(self@)]);
                }
                push_write(out, Write { node: b, props: bound });
            },
            None => {},
        }
        proof {
            assert(writes_view(out@) =~= before + selection_writes(self@));
        }
    }

    fn select(&mut self, index: usize, out: &mut Vec<Write>)
        ensures
            final(self)@ == spec_select(old(self)@, index as int).0,
            writes_view(final(out)@) == writes_view(old(out)@) + spec_select(old(self)@, index as int).1,
    {
        if self.options.len() == 0 {
            self.options = default_option_list();
        }
        let last = self.options.len() - 1;
        self.selected_index = if index < self.options.len() {
            index
        } else {
            last
        };
        self.publish(out);
    }

    fn open_menu(&mut self, out: &mut Vec<Write>)
        ensures
            final(self)@ == spec_open(old(self)@).0,
            writes_view(final(out)@) == writes_view(old(out)@) + spec_open(old(self)@).1,
    {
        self.open = true;
        if self.options.len() == 0 {
            self.options = default_option_list();
        }
        let idx = if self.selected_index < self.options.len() {
            self.selected_index
        } else {
            self.options.len() - 1
        };
        self.hovered_index = Some(idx);
        let h = self.expanded();
        push_write(out, height_write_of(self.widget_id, h));
        proof {
            assert(seq![height_write(self@, h)] =~= spec_open(old(self)@).1);
        }
    }

    fn close_menu(&mut self, out: &mut Vec<Write>)
        ensures
            final(self)@ == spec_close(old(self)@).0,
            writes_view(final(out)@) == writes_view(old(out)@) + spec_close(old(self)@).1,
    {
        self.open = false;
        self.hovered_index = None;
        push_write(out, height_write_of(self.widget_id, self.collapsed_height));
        proof {
            assert(seq![height_write(self@, self.collapsed_height)] =~= spec_close(old(self)@).1);
        }
    }

    fn option_under(&self, y: i32) -> (r: Option<usize>)
        requires
            i32::MIN <= y - (self.collapsed_height as i32) <= i32::MAX,
        ensures
            r == option_at(self@, y),
    {
        let in_menu: i32 = y - self.collapsed_height as i32;
        if in_menu < 0 {
            return None;
        }
        let idx = (in_menu / 28) as usize;
        if idx < self.options.len() {
            Some(idx)
        } else {
            None
        }
    }

    fn move_focus(&mut self, delta: i64, out: &mut Vec<Write>)
        requires
            delta == 1 || delta == -1,
            old(self)@.options.len() <= i32::MAX,
            old(self)@.selected_index < old(self)@.options.len() || old(self)@.options.len() == 0,
            old(self)@.hovered_index matches Some(h) ==> h < old(self)@.options.len(),
        ensures
            final(self)@ == spec_move(old(self)@, delta as int).0,
            writes_view(final(out)@) == writes_view(old(out)@) + spec_move(old(self)@, delta as int).1,
    {
        if self.options.len() == 0 {
            proof {
                assert(writes_view(out@) =~= writes_view(out@) + Seq::<WriteView>::empty());
            }
            return;
        }
        let current: i64 = if self.open {
            match self.hovered_index {
                Some(h) => h as i64,
                None => self.selected_index as i64,
            }
        } else {
            self.selected_index as i64
        };
        let last: i64 = self.options.len() as i64 - 1;
        let next: i64 = if current + delta < 0 {
            0
        } else if current + delta > last {
            last
        } else {
            current + delta
        };
        if self.open {
            self.hovered_index = Some(next as usize);
            proof {
                assert(writes_view(out@) =~= writes_view(out@) + Seq::<WriteView>::empty());
            }
        } else {
            self.select(next as usize, out);
        }
    }

    fn read(&mut self, p: &SymbolMap)
        ensures
            final(self)@ == spec_read(old(self)@, p@),
    {
        match p.get(&Symbol(OPTIONS)) {
            Some(Value::List(list)) => {
                let opts = parse_list(list);
                if opts.len() > 0 {
                    self.options = opts;
                }
            },
            _ => {},
        }
        match p.get(&Symbol(SELECTED_INDEX)) {
            Some(Value::I64(idx)) => {
                let i = (if *idx > 0 {
                    *idx
                } else {
                    0
                }) as usize;
                if self.options.len() > 0 {
                    self.selected_index = if i < self.options.len() {
                        i
                    } else {
                        self.options.len() - 1
                    };
                } else {
                    self.selected_index = 0;
                }
            },
            _ => {},
        }
        match p.get(&Symbol(TEXT)) {
            Some(v) => match extract_text(v) {
                Some(t) => self.label = Some(t),
                None => {},
            },
            None => {},
        }
        match p.get(&Symbol(BINDS)) {
            Some(Value::Uuid(node)) => self.binds = Some(*node),
            _ => {},
        }
        if !self.open {
            match get_u64(p, HEIGHT) {
                Some(h) => {
                    if h as u32 > 0 {
                        self.collapsed_height = h as u32;
                    }
                },
                None => {},
            }
        }
    }

    /// Re-read the Thing (as `props`, when it could be read).
    fn refresh(&mut self, props: Option<&SymbolMap>, out: &mut Vec<Write>)
        ensures
            final(self)@ == spec_refresh(old(self)@, props_view(props)).0,
            writes_view(final(out)@) == writes_view(old(out)@) + spec_refresh(old(self)@, props_view(props)).1,
            final(self)@.options.len() > 0,
            final(self)@.selected_index < final(self)@.options.len(),
            final(self)@.hovered_index matches Some(h) ==> h < final(self)@.options.len(),
    {
        match props {
            Some(p) => self.read(p),
            None => {},
        }
        if self.options.len() == 0 {
            self.options = default_option_list();
        }
        if self.selected_index >= self.options.len() {
            self.selected_index = self.options.len() - 1;
        }
        match self.hovered_index {
            Some(h) => {
                if h >= self.options.len() {
                    self.hovered_index = None;
                }
            },
            None => {},
        }
        if self.open {
            let h = self.expanded();
            push_write(out, height_write_of(self.widget_id, h));
            proof {
                assert(seq![height_write(self@, h)] =~= spec_refresh(old(self)@, props_view(props)).1);
            }
        } else {
            proof {
                assert(writes_view(out@) =~= writes_view(out@) + Seq::<WriteView>::empty());
            }
        }
    }
}

/// A box of the drop-down (in its own coordinates) cut at its right and
/// bottom edges and at column and row 0 of the buffer.
pub open spec fn fill(r: Rect, x: int, y: int, w: int, h: int, p: Pixel) -> Seq<PaintView> {
    let x0 = r.x + x;
    let y0 = r.y + y;
    fill_box(x0, y0, min(x0 + w, r.x + r.width), min(y0 + h, r.y + r.height), r.width as int, p)
}

/// A bevelled outline: top and left edges light, bottom and right shadow.
pub open spec fn outline(r: Rect, x: int, y: int, w: int, h: int, light: Pixel, shadow: Pixel) -> Seq<PaintView> {
    fill(r, x, y, w, 1, light) + fill(r, x, y, 1, h, light) + fill(r, x, y + h - 1, w, 1, shadow) + fill(r, x + w - 1, y, 1, h, shadow)
}

/// How text is set: 8 columns per character, in dark grey, from column and
/// row 0 up to the drop-down's right and bottom edges, stopping once the run
/// is `max_width` wide.
pub open spec fn text_style(r: Rect, max_width: int) -> TextStyle {
    TextStyle {
        eight_columns: true,
        advance: Advance::Fixed,
        multiline: false,
        stop: Stop::Width(max_width as i64),
        clip: Clip { x0: 0, y0: 0, x1: (r.x + r.width) as i64, y1: (r.y + r.height) as i64 },
        pixel: Pixel(0x22, 0x22, 0x22, 0xff),
    }
}

/// The rows of the arrow (a triangle pointing down, 3 or 5 rows) from row
/// `row`, centred in the arrow area, cut to the drop-down's columns.
pub open spec fn arrow_rows(r: Rect, ax: int, h: int, aw: int, row: int) -> Seq<PaintView>
    decreases 5 - row,
{
    let size: int = if aw < 12 {
        3
    } else {
        5
    };
    if row < 0 || row >= size {
        Seq::empty()
    } else {
        let cx = r.x + ax + aw / 2;
        let cy = r.y + h / 2;
        let sx = cx - row;
        seq![PaintView::Fill {
            x0: max(sx, r.x as int),
            y0: cy + row,
            x1: min(sx + 2 * row + 1, r.x + r.width),
            y1: cy + row + 1,
            pixel: Pixel(0x60, 0x60, 0x60, 0xff),
        }] + arrow_rows(r, ax, h, aw, row + 1)
    }
}

/// The closed box `base` rows high: its face (darker when pressed or open),
/// outline, the arrow area with its outline and arrow, and the current label.
pub open spec fn base_ops(s: StateView, r: Rect, base: int) -> Seq<PaintView> {
    let w = r.width as int;
    let light = spec_argb(0xffff_ffff);
    let shadow = spec_argb(0xff9c_a3b2);
    let bg = if s.pressed || s.open {
        0xffe0_e4ec
    } else {
        0xfff2_f2f2
    };
    let aw = min(28, w);
    let ax = w - aw;
    fill(r, 0, 0, w, base, spec_argb(bg)) + outline(r, 0, 0, w, base, light, shadow) + fill(r, ax, 0, aw, base, spec_argb(0xffd8_dde8))
        + outline(r, ax, 0, aw, base, light, shadow) + arrow_rows(r, ax, base, aw, 0) + text_ops(
        current_label(s),
        r.x + 8,
        r.y + max(base - 16, 0) / 2,
        r.x + 8,
        text_style(r, ax - 16),
    )
}

/// The menu rows from option `i`: each row below the box that starts inside
/// the drop-down, filled (hovered, selected or plain) and labelled.
pub open spec fn menu_rows(s: StateView, r: Rect, base: int, i: int) -> Seq<PaintView>
    decreases s.options.len() - i,
{
    if i < 0 || i >= s.options.len() {
        Seq::empty()
    } else {
        let row_y = base + i * 28;
        if row_y >= r.height {
            Seq::empty()
        } else {
            let menu_h = r.height - base;
            let row_h = min(28, menu_h - (row_y - base));
            let bg = if s.hovered_index == Some(i as usize) {
                0xffc8_d6f0
            } else if s.selected_index == i {
                0xffe1_e6f2
            } else {
                0xfffa_fbfe
            };
            fill(r, 0, row_y, r.width as int, row_h, spec_argb(bg)) + text_ops(
                s.options[i].label,
                r.x + 8,
                r.y + row_y + 6,
                r.x + 8,
                text_style(r, r.width - 16),
            ) + menu_rows(s, r, base, i + 1)
        }
    }
}

/// The open menu below a box `base` rows high: its background, its rows,
/// and its outline.
pub open spec fn menu_ops(s: StateView, r: Rect, base: int) -> Seq<PaintView> {
    let menu_h = r.height - base;
    let border = spec_argb(0xff8d_99af);
    if menu_h <= 0 {
        Seq::empty()
    } else {
        fill(r, 0, base, r.width as int, menu_h, spec_argb(0xfffa_fbfe)) + menu_rows(s, r, base, 0) + outline(
            r,
            0,
            base,
            r.width as int,
            menu_h,
            border,
            border,
        )
    }
}

/// The drawing of a drop-down (as re-read): nothing in an empty rect; else
/// its box at most as high as the rect, and its menu when open.
pub open spec fn spec_draw(s: StateView, r: Rect) -> Seq<PaintView> {
    if r.width == 0 || r.height == 0 {
        Seq::empty()
    } else {
        let base = max(1, min(s.collapsed_height as int, r.height as int));
        base_ops(s, r, base) + if s.open {
            menu_ops(s, r, base)
        } else {
            Seq::empty()
        }
    }
}

/// A rect a drop-down can be drawn in: at or right of column 0 and at or
/// below row 0, its far edges within `i32`.
pub open spec fn drawable(r: Rect) -> bool {
    &&& r.x >= 0
    &&& r.y >= 0
    &&& r.x + r.width <= i32::MAX
    &&& r.y + r.height <= i32::MAX
}

/// Labels short enough to be set.
pub open spec fn labels_fit(s: StateView) -> bool {
    &&& forall|i: int| 0 <= i < s.options.len() ==> #[trigger] s.options[i].label.len() < 0x1000_0000
    &&& s.label matches Some(l) ==> l.len() < 0x1000_0000
}

/// Append a box of the drop-down, cut to it.
fn push_fill(ops: &mut Vec<Paint>, r: Rect, x: i64, y: i64, w: i64, h: i64, p: Pixel)
    requires
        drawable(r),
        -0x4_0000_0000 <= x <= 0x4_0000_0000,
        -0x4_0000_0000 <= y <= 0x4_0000_0000,
        -0x4_0000_0000 <= w <= 0x4_0000_0000,
        -0x4_0000_0000 <= h <= 0x4_0000_0000,
    ensures
        paint_views(final(ops)@) == paint_views(old(ops)@) + fill(r, x as int, y as int, w as int, h as int, p),
        ops_wf(paint_views(old(ops)@), r.width as int) ==> ops_wf(paint_views(final(ops)@), r.width as int),
{
    let x0 = r.x as i64 + x;
    let y0 = r.y as i64 + y;
    let xe = r.x as i64 + r.width as i64;
    let ye = r.y as i64 + r.height as i64;
    let x1 = if x0 + w < xe {
        x0 + w
    } else {
        xe
    };
    let y1 = if y0 + h < ye {
        y0 + h
    } else {
        ye
    };
    let ghost before = paint_views(ops@);
    push_fill_box(ops, x0, y0, x1, y1, r.width, p);
    proof {
        lemma_draw_wf(r.width as int);
        if ops_wf(before, r.width as int) {
            lemma_ops_wf_append(before, fill(r, x as int, y as int, w as int, h as int, p), r.width as int);
        }
    }
}

/// Append a bevelled outline.
fn push_outline(ops: &mut Vec<Paint>, r: Rect, x: i64, y: i64, w: i64, h: i64, light: Pixel, shadow: Pixel)
    requires
        drawable(r),
        -0x1_0000_0000 <= x <= 0x1_0000_0000,
        -0x1_0000_0000 <= y <= 0x1_0000_0000,
        -0x1_0000_0000 <= w <= 0x1_0000_0000,
        -0x1_0000_0000 <= h <= 0x1_0000_0000,
    ensures
        paint_views(final(ops)@) == paint_views(old(ops)@) + outline(r, x as int, y as int, w as int, h as int, light, shadow),
        ops_wf(paint_views(old(ops)@), r.width as int) ==> ops_wf(paint_views(final(ops)@), r.width as int),
{
    let ghost before = paint_views(ops@);
    push_fill(ops, r, x, y, w, 1, light);
    push_fill(ops, r, x, y, 1, h, light);
    push_fill(ops, r, x, y + h - 1, w, 1, shadow);
    push_fill(ops, r, x + w - 1, y, 1, h, shadow);
    proof {
        assert(paint_views(ops@) =~= before + outline(r, x as int, y as int, w as int, h as int, light, shadow));
    }
}

/// Text set from a column at or right of the drop-down's left edge fits a
/// buffer as wide as the drop-down: each glyph box starts at or right of that
/// edge and ends at or before the right one.
proof fn lemma_label_wf(cs: Seq<char>, x: int, y: int, sx: int, r: Rect, m: int)
    requires
        drawable(r),
        x >= r.x,
    ensures
        ops_wf(text_ops(cs, x, y, sx, text_style(r, m)), r.width as int),
    decreases cs.len(),
{
    let st = text_style(r, m);
    assert(st.clip.x0 == 0 && st.clip.y0 == 0 && st.clip.x1 == r.x + r.width);
    if cs.len() == 0 {
    } else if (st.stop matches Stop::Width(mm) && x - sx >= mm) {
    } else {
        lemma_label_wf(cs.drop_first(), x + crate::widget_abi::step(cs[0], st.advance), y, sx, r, m);
        match crate::raster::spec_glyph(cs[0]) {
            Some(g) => {
                let rest = text_ops(cs.drop_first(), x + crate::widget_abi::step(cs[0], st.advance), y, sx, st);
                let all = text_ops(cs, x, y, sx, st);
                assert(all == seq![crate::widget_abi::glyph_op(x, y, g, st)] + rest);
                assert forall|k: int| 0 <= k < all.len() implies crate::raster::paint_wf(#[trigger] all[k], r.width as int) by {
                    if k > 0 {
                        assert(all[k] == rest[k - 1]);
                    }
                }
            },
            None => {},
        }
    }
}

/// Append a run of text, set in the drop-down's style.
fn push_label(ops: &mut Vec<Paint>, r: Rect, text: &str, x: i64, y: i64, max_width: i64)
    requires
        drawable(r),
        text@.len() < 0x1000_0000,
        r.x <= x <= 0x1_0000_0000,
        -0x1_0000_0000 <= y <= 0x1_0000_0000,
        -0x1_0000_0000 <= max_width <= 0x1_0000_0000,
    ensures
        paint_views(final(ops)@) == paint_views(old(ops)@) + text_ops(text@, x as int, y as int, x as int, text_style(r, max_width as int)),
        ops_wf(paint_views(old(ops)@), r.width as int) ==> ops_wf(paint_views(final(ops)@), r.width as int),
{
    let st = TextStyle {
        eight_columns: true,
        advance: Advance::Fixed,
        multiline: false,
        stop: Stop::Width(max_width),
        clip: Clip { x0: 0, y0: 0, x1: r.x as i64 + r.width as i64, y1: r.y as i64 + r.height as i64 },
        pixel: Pixel(0x22, 0x22, 0x22, 0xff),
    };
    let ghost before = paint_views(ops@);
    push_text(ops, text, x, y, st);
    proof {
        assert(st == text_style(r, max_width as int));
        if ops_wf(before, r.width as int) {
            lemma_label_wf(text@, x as int, y as int, x as int, r, max_width as int);
            lemma_ops_wf_append(before, text_ops(text@, x as int, y as int, x as int, st), r.width as int);
        }
    }
}

fn copy_state(s: &State) -> (c: State)
    ensures
        c@ == s@,
{
    State {
        widget_id: s.widget_id,
        options: copy_options(&s.options),
        selected_index: s.selected_index,
        pressed: s.pressed,
        open: s.open,
        label: match &s.label {
            Some(l) => Some(String::from_str(l.as_str())),
            None => None,
        },
        collapsed_height: s.collapsed_height,
        binds: s.binds,
        hovered_index: s.hovered_index,
    }
}

impl State {
    fn push_base(&self, ops: &mut Vec<Paint>, r: Rect, base: i64)
        requires
            drawable(r),
            labels_fit(self@),
            1 <= base <= r.height,
            r.width > 0,
        ensures
            paint_views(final(ops)@) == paint_views(old(ops)@) + base_ops(self@, r, base as int),
            ops_wf(paint_views(old(ops)@), r.width as int) ==> ops_wf(paint_views(final(ops)@), r.width as int),
    {
        let ghost start = paint_views(ops@);
        let w = r.width as i64;
        let light = argb(0xffff_ffff);
        let shadow = argb(0xff9c_a3b2);
        let bg: u32 = if self.pressed || self.open {
            0xffe0_e4ec
        } else {
            0xfff2_f2f2
        };
        let aw: i64 = if w < 28 {
            w
        } else {
            28
        };
        let ax = w - aw;
        push_fill(ops, r, 0, 0, w, base, argb(bg));
        push_outline(ops, r, 0, 0, w, base, light, shadow);
        push_fill(ops, r, ax, 0, aw, base, argb(0xffd8_dde8));
        push_outline(ops, r, ax, 0, aw, base, light, shadow);
        let ghost before_arrow = paint_views(ops@);
        let size: i64 = if aw < 12 {
            3
        } else {
            5
        };
        let cx = r.x as i64 + ax + aw / 2;
        let cy = r.y as i64 + base / 2;
        let mut row: i64 = 0;
        while row < size
            invariant
                0 <= row <= size,
                size == (if aw < 12 { 3int } else { 5int }),
                drawable(r),
                0 <= aw <= 28,
                0 <= ax <= r.width,
                1 <= base <= r.height,
                cx == r.x + ax + aw / 2,
                cy == r.y + base / 2,
                before_arrow + arrow_rows(r, ax as int, base as int, aw as int, 0) == paint_views(ops@) + arrow_rows(r, ax as int, base as int, aw as int, row as int),
                ops_wf(before_arrow, r.width as int) ==> ops_wf(paint_views(ops@), r.width as int),
            decreases size - row,
        {
            let sx = cx - row;
            let x0 = if sx > r.x as i64 {
                sx
            } else {
                r.x as i64
            };
            let xe = r.x as i64 + r.width as i64;
            let x1 = if sx + 2 * row + 1 < xe {
                sx + 2 * row + 1
            } else {
                xe
            };
            let ghost before = paint_views(ops@);
            ops.push(Paint::Fill { x0, y0: cy + row, x1, y1: cy + row + 1, pixel: Pixel(0x60, 0x60, 0x60, 0xff) });
            proof {
                let op = PaintView::Fill { x0: x0 as int, y0: cy + row, x1: x1 as int, y1: cy + row + 1, pixel: Pixel(0x60, 0x60, 0x60, 0xff) };
                assert(paint_views(ops@) =~= before.push(op));
                assert(arrow_rows(r, ax as int, base as int, aw as int, row as int) == seq![op] + arrow_rows(r, ax as int, base as int, aw as int, row + 1));
                assert(before + (seq![op] + arrow_rows(r, ax as int, base as int, aw as int, row + 1)) =~= before.push(op) + arrow_rows(r, ax as int, base as int, aw as int, row + 1));
                if ops_wf(before_arrow, r.width as int) {
                    assert forall|k: int| 0 <= k < paint_views(ops@).len() implies crate::raster::paint_wf(#[trigger] paint_views(ops@)[k], r.width as int) by {
                        if k < before.len() {
                            assert(paint_views(ops@)[k] == before[k]);
                        }
                    }
                }
            }
            row = row + 1;
        }
        proof {
            assert(arrow_rows(r, ax as int, base as int, aw as int, row as int) =~= Seq::<PaintView>::empty());
            assert(paint_views(ops@) + Seq::<PaintView>::empty() =~= paint_views(ops@));
        }
        let label = self.label_now();
        proof {
            reveal_strlit("Select");
        }
        let ty = if base - 16 > 0 {
            (base - 16) / 2
        } else {
            0
        };
        push_label(ops, r, label.as_str(), r.x as i64 + 8, r.y as i64 + ty, ax - 16);
        proof {
            assert(paint_views(ops@) =~= start + base_ops(self@, r, base as int));
        }
    }

    fn push_menu(&self, ops: &mut Vec<Paint>, r: Rect, base: i64)
        requires
            drawable(r),
            labels_fit(self@),
            1 <= base <= r.height,
            r.width > 0,
        ensures
            paint_views(final(ops)@) == paint_views(old(ops)@) + menu_ops(self@, r, base as int),
            ops_wf(paint_views(old(ops)@), r.width as int) ==> ops_wf(paint_views(final(ops)@), r.width as int),
    {
        let h = r.height as i64;
        let w = r.width as i64;
        let menu_h = h - base;
        if menu_h <= 0 {
            proof {
                assert(paint_views(ops@) + Seq::<PaintView>::empty() =~= paint_views(ops@));
            }
            return;
        }
        let ghost start = paint_views(ops@);
        let ghost fits = ops_wf(start, r.width as int);
        push_fill(ops, r, 0, base, w, menu_h, argb(0xfffa_fbfe));
        let ghost head = paint_views(ops@);
        let mut i: usize = 0;
        let mut stopped = false;
        while i < self.options.len() && !stopped
            invariant
                drawable(r),
                labels_fit(self@),
                1 <= base <= r.height,
                h == r.height,
                w == r.width,
                menu_h == h - base,
                i <= self.options@.len(),
                self@.options.len() == self.options@.len(),
                !stopped ==> base + i * 28 < h + 28,
                fits ==> ops_wf(paint_views(ops@), r.width as int),
                head + menu_rows(self@, r, base as int, 0) == paint_views(ops@) + (if stopped {
                    Seq::<PaintView>::empty()
                } else {
                    menu_rows(self@, r, base as int, i as int)
                }),
            decreases self.options@.len() - i + (if stopped { 0int } else { 1int }),
        {
            let row_y: i64 = base + i as i64 * 28;
            if row_y >= h {
                stopped = true;
                proof {
                    assert(paint_views(ops@) + Seq::<PaintView>::empty() =~= paint_views(ops@));
                }
            } else {
                let left = menu_h - (row_y - base);
                let row_h = if left < 28 {
                    left
                } else {
                    28
                };
                let bg: u32 = if self.hovered_index == Some(i) {
                    0xffc8_d6f0
                } else if self.selected_index == i {
                    0xffe1_e6f2
                } else {
                    0xfffa_fbfe
                };
                let ghost before = paint_views(ops@);
                push_fill(ops, r, 0, row_y, w, row_h, argb(bg));
                proof {
                    assert(self@.options[i as int].label == self.options@[i as int].label@);
                }
                push_label(ops, r, self.options[i].label.as_str(), r.x as i64 + 8, r.y as i64 + row_y + 6, w - 16);
                proof {
                    let here = fill(r, 0, row_y as int, r.width as int, row_h as int, spec_argb(bg)) + text_ops(
                        self@.options[i as int].label,
                        r.x + 8,
                        r.y + row_y + 6,
                        r.x + 8,
                        text_style(r, r.width - 16),
                    );
                    assert(menu_rows(self@, r, base as int, i as int) == here + menu_rows(self@, r, base as int, i + 1));
                    assert(paint_views(ops@) =~= before + here);
                    assert(before + (here + menu_rows(self@, r, base as int, i + 1)) =~= (before + here) + menu_rows(self@, r, base as int, i + 1));
                }
                i = i + 1;
            }
        }
        proof {
            if !stopped {
                assert(menu_rows(self@, r, base as int, i as int) =~= Seq::<PaintView>::empty());
                assert(paint_views(ops@) + Seq::<PaintView>::empty() =~= paint_views(ops@));
            }
        }
        let border = argb(0xff8d_99af);
        push_outline(ops, r, 0, base, w, menu_h, border, border);
        proof {
            assert(paint_views(ops@) =~= start + menu_ops(self@, r, base as int));
        }
    }
}

/// A drop-down's options are never empty, and its selected and hovered
/// options are among them, after it re-reads its Thing and after any event.
pub proof fn lemma_selection_in_range(s: StateView, props: Option<Map<u32, ValueView>>, e: WidgetEvent)
    ensures
        spec_refresh(s, props).0.options.len() > 0,
        spec_refresh(s, props).0.selected_index < spec_refresh(s, props).0.options.len(),
        spec_refresh(s, props).0.hovered_index matches Some(h) ==> h < spec_refresh(s, props).0.options.len(),
        spec_event(s, props, e).0.options.len() > 0,
        spec_event(s, props, e).0.selected_index < spec_event(s, props, e).0.options.len(),
        spec_event(s, props, e).0.hovered_index matches Some(h) ==> h < spec_event(s, props, e).0.options.len(),
{
    let r = spec_refresh(s, props).0;
    assert(default_options().len() == 4);
    if let WidgetEvent::Input(InputEvent::KeyDown { key }) = e {
        if key == 0x414400 {
            assert(spec_move(r, 1).0.options == r.options);
        } else if key == 0x415500 {
            assert(spec_move(r, -1).0.options == r.options);
        }
    }
}

/// A drop-down before reading its Thing: the default options, the first
/// selected, closed, at least one row high.
pub open spec fn spec_blank(widget_id: u128, height: u32) -> StateView {
    StateView {
        widget_id,
        options: default_options(),
        selected_index: 0,
        pressed: false,
        open: false,
        label: None,
        collapsed_height: if height > 1 {
            height
        } else {
            1
        },
        binds: None,
        hovered_index: None,
    }
}

/// The drop-down widget.
pub struct DropdownWidget;

impl DropdownWidget {
    /// What to read from the widget's Thing: options, selected index, label,
    /// height and binding.
    pub fn props_request(widget_id: u128) -> (r: GraphPropsGetRequest)
        ensures
            r.node == widget_id,
            r.keys@ == seq![Symbol(OPTIONS), Symbol(SELECTED_INDEX), Symbol(TEXT), Symbol(HEIGHT), Symbol(BINDS)],
    {
        let mut keys: Vec<Symbol> = Vec::new();
        keys.push(Symbol(OPTIONS));
        keys.push(Symbol(SELECTED_INDEX));
        keys.push(Symbol(TEXT));
        keys.push(Symbol(HEIGHT));
        keys.push(Symbol(BINDS));
        GraphPropsGetRequest { node: widget_id, keys }
    }

    /// The paint operations of a drawing (of the drop-down as re-read from
    /// `props`), and the writes the re-reading asks for; nothing at all for an
    /// empty rect.
    pub fn draw_ops(state: &State, props: Option<&SymbolMap>, rect: Rect) -> (r: (Vec<Paint>, Vec<Write>))
        requires
            drawable(rect),
            labels_fit(spec_refresh(state@, props_view(props)).0),
        ensures
            paint_views(r.0@) == spec_draw(spec_refresh(state@, props_view(props)).0, rect),
            writes_view(r.1@) == (if rect.width == 0 || rect.height == 0 {
                Seq::<WriteView>::empty()
            } else {
                spec_refresh(state@, props_view(props)).1
            }),
            ops_wf(paint_views(r.0@), rect.width as int),
    {
        let mut ops = no_ops();
        let mut out: Vec<Write> = Vec::new();
        proof {
            assert(writes_view(out@) =~= Seq::<WriteView>::empty());
            assert(ops_wf(paint_views(ops@), rect.width as int));
        }
        if rect.width == 0 || rect.height == 0 {
            return (ops, out);
        }
        let mut view = copy_state(state);
        view.refresh(props, &mut out);
        proof {
            assert(Seq::<WriteView>::empty() + spec_refresh(state@, props_view(props)).1 =~= spec_refresh(state@, props_view(props)).1);
        }
        let h = rect.height as i64;
        let c = view.collapsed_height as i64;
        let base: i64 = if c < h {
            if c > 1 {
                c
            } else {
                1
            }
        } else {
            h
        };
        view.push_base(&mut ops, rect, base);
        if view.open {
            view.push_menu(&mut ops, rect, base);
        } else {
            proof {
                assert(paint_views(ops@) + Seq::<PaintView>::empty() =~= paint_views(ops@));
            }
        }
        proof {
            assert(paint_views(ops@) =~= spec_draw(spec_refresh(state@, props_view(props)).0, rect));
        }
        (ops, out)
    }

    /// Draw the drop-down (as re-read from `props`) into a buffer
    /// `rect.width` pixels wide; returns the writes the re-reading asks for.
    pub fn draw(state: &State, props: Option<&SymbolMap>, fb: &mut [u8], rect: Rect) -> (w: Vec<Write>)
        requires
            drawable(rect),
            labels_fit(spec_refresh(state@, props_view(props)).0),
        ensures
            final(fb)@ == render(old(fb)@, rect.width as int, spec_draw(spec_refresh(state@, props_view(props)).0, rect)),
            writes_view(w@) == (if rect.width == 0 || rect.height == 0 {
                Seq::<WriteView>::empty()
            } else {
                spec_refresh(state@, props_view(props)).1
            }),
    {
        let (ops, w) = Self::draw_ops(state, props, rect);
        paint_all(fb, rect.width, &ops);
        w
    }

    /// Whether an event's arithmetic stays within 32 bits on the drop-down as
    /// re-read from `props` (see `handle_event`).
    pub fn event_in_range(state: &State, props: Option<&SymbolMap>, event: WidgetEvent) -> (r: bool)
        ensures
            r == event_fits(spec_refresh(state@, props_view(props)).0, event),
    {
        let mut view = copy_state(state);
        let mut out: Vec<Write> = Vec::new();
        view.refresh(props, &mut out);
        let c = view.collapsed_height as i32 as i64;
        match event {
            WidgetEvent::Input(InputEvent::MouseDown { y, .. }) => !view.open || (i32::MIN as i64 <= y as i64 - c && y as i64 - c <= i32::MAX as i64),
            WidgetEvent::Input(InputEvent::MouseUp { y, .. }) => !view.open || (i32::MIN as i64 <= y as i64 - c && y as i64 - c <= i32::MAX as i64),
            WidgetEvent::Input(InputEvent::MouseMove { y, .. }) => !view.open || (i32::MIN as i64 <= y as i64 - c && y as i64 - c <= i32::MAX as i64),
            WidgetEvent::Input(InputEvent::KeyDown { key }) => !(key == 0x414400 || key == 0x415500) || view.options.len() <= i32::MAX as usize,
            _ => true,
        }
    }

    /// Whether the labels of the drop-down as re-read from `props` are short
    /// enough to be set (see `draw`).
    pub fn labels_in_range(state: &State, props: Option<&SymbolMap>) -> (r: bool)
        ensures
            r == labels_fit(spec_refresh(state@, props_view(props)).0),
    {
        let mut view = copy_state(state);
        let mut out: Vec<Write> = Vec::new();
        view.refresh(props, &mut out);
        let mut i: usize = 0;
        while i < view.options.len()
            invariant
                i <= view.options@.len(),
                view@ == spec_refresh(state@, props_view(props)).0,
                options_view(view.options@).len() == view.options@.len(),
                forall|j: int| 0 <= j < i ==> #[trigger] view@.options[j].label.len() < 0x1000_0000,
            decreases view.options@.len() - i,
        {
            proof {
                assert(view@.options[i as int].label == view.options@[i as int].label@);
            }
            if view.options[i].label.unicode_len() >= 0x1000_0000 {
                proof {
                    assert(!(view@.options[i as int].label.len() < 0x1000_0000));
                }
                return false;
            }
            i = i + 1;
        }
        match &view.label {
            Some(l) => l.unicode_len() < 0x1000_0000,
            None => true,
        }
    }

    /// A drop-down in a buffer `height` rows high, after reading its Thing as
    /// `props`, and the writes that asks for.
    pub fn init(widget_id: u128, height: u32, props: Option<&SymbolMap>) -> (r: (State, Vec<Write>))
        ensures
            (r.0@, writes_view(r.1@)) == spec_refresh(spec_blank(widget_id, height), props_view(props)),
    {
        let mut state = State {
            widget_id,
            options: default_option_list(),
            selected_index: 0,
            pressed: false,
            open: false,
            label: None,
            collapsed_height: if height > 1 {
                height
            } else {
                1
            },
            binds: None,
            hovered_index: None,
        };
        let mut out: Vec<Write> = Vec::new();
        proof {
            assert(writes_view(out@) =~= Seq::<WriteView>::empty());
        }
        state.refresh(props, &mut out);
        proof {
            assert(Seq::<WriteView>::empty() + spec_refresh(spec_blank(widget_id, height), props_view(props)).1
                =~= spec_refresh(spec_blank(widget_id, height), props_view(props)).1);
        }
        (state, out)
    }

    /// Handle an event, after reading the Thing as `props`; returns the writes
    /// it asks for.
    pub fn handle_event(state: &mut State, props: Option<&SymbolMap>, event: WidgetEvent) -> (w: Vec<Write>)
        requires
            event_fits(spec_refresh(old(state)@, props_view(props)).0, event),
        ensures
            (final(state)@, writes_view(w@)) == spec_event(old(state)@, props_view(props), event),
    {
        let mut out: Vec<Write> = Vec::new();
        proof {
            assert(writes_view(out@) =~= Seq::<WriteView>::empty());
        }
        state.refresh(props, &mut out);
        let ghost s = state@;
        let ghost w0 = writes_view(out@);
        proof {
            assert(w0 =~= spec_refresh(old(state)@, props_view(props)).1);
        }
        match event {
            WidgetEvent::Input(InputEvent::MouseDown { y, .. }) => {
                state.pressed = y < state.collapsed_height as i32;
                if state.open {
                    state.hovered_index = state.option_under(y);
                    proof {
                        assert(w0 + Seq::<WriteView>::empty() =~= w0);
                    }
                } else {
                    state.open_menu(&mut out);
                }
            },
            WidgetEvent::Input(InputEvent::MouseUp { y, .. }) => {
                if state.open {
                    match state.option_under(y) {
                        Some(i) => state.select(i, &mut out),
                        None => {},
                    }
                    let ghost mid = writes_view(out@);
                    state.close_menu(&mut out);
                    proof {
                        let wa = if option_at(s, y) is Some {
                            spec_select(s, option_at(s, y)->0 as int).1
                        } else {
                            Seq::<WriteView>::empty()
                        };
                        if option_at(s, y) is None {
                            assert(mid =~= w0 + wa);
                        }
                        assert(writes_view(out@) =~= w0 + (wa + (writes_view(out@).skip(mid.len() as int))));
                    }
                } else if state.pressed {
                    state.open_menu(&mut out);
                } else {
                    proof {
                        assert(w0 + Seq::<WriteView>::empty() =~= w0);
                    }
                }
                state.pressed = false;
            },
            WidgetEvent::Input(InputEvent::MouseMove { y, .. }) => {
                if state.open {
                    state.hovered_index = state.option_under(y);
                }
                proof {
                    assert(w0 + Seq::<WriteView>::empty() =~= w0);
                }
            },
            WidgetEvent::Input(InputEvent::KeyDown { key }) => {
                if key == 0x20 || key == 0x454e00 {
                    if state.open {
                        let idx = match state.hovered_index {
                            Some(h) => h,
                            None => state.selected_index,
                        };
                        state.select(idx, &mut out);
                        let ghost mid = writes_view(out@);
                        state.close_menu(&mut out);
                        proof {
                            assert(writes_view(out@) =~= w0 + ((mid.skip(w0.len() as int)) + writes_view(out@).skip(mid.len() as int)));
                        }
                    } else {
                        state.open_menu(&mut out);
                    }
                } else if key == 0x414400 {
                    state.move_focus(1, &mut out);
                } else if key == 0x415500 {
                    state.move_focus(-1, &mut out);
                } else if key == 0x484d00 {
                    if state.open {
                        state.hovered_index = Some(0);
                        proof {
                            assert(w0 + Seq::<WriteView>::empty() =~= w0);
                        }
                    } else {
                        state.select(0, &mut out);
                    }
                } else if key == 0x454400 {
                    let last = state.options.len() - 1;
                    if state.open {
                        state.hovered_index = Some(last);
                        proof {
                            assert(w0 + Seq::<WriteView>::empty() =~= w0);
                        }
                    } else {
                        state.select(last, &mut out);
                    }
                } else if key == 0x455300 {
                    state.close_menu(&mut out);
                } else {
                    proof {
                        assert(w0 + Seq::<WriteView>::empty() =~= w0);
                    }
                }
            },
            WidgetEvent::Input(InputEvent::KeyUp { .. }) => {
                state.pressed = false;
                proof {
                    assert(w0 + Seq::<WriteView>::empty() =~= w0);
                }
            },
            _ => {
                proof {
                    assert(w0 + Seq::<WriteView>::empty() =~= w0);
                }
            },
        }
        out
    }
}

} // verus!
