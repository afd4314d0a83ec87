//! A list box: the `ITEM` Things whose parent is the list box, one 36-row
//! entry each (with its icon, when the item names one the caller has), the
//! selected entry highlighted and the focused one outlined; the selection is
//! written to the Thing the list box is bound to.

use vstd::prelude::*;
use crate::abi::{SymbolMap, Value, ValueView};
use crate::canon::{str_eq, Symbol, SELECTED_INDEX};
use crate::fs::PARENT;
use crate::layout::{BINDS, ICON_NAME};
use crate::raster::{argb, ops_wf, paint_all, paint_views, render, spec_argb, Paint, PaintView, Pixel, Rect};
use crate::records::GraphThing;
use crate::thingable::{field_i64, field_uuid, get_i64, get_uuid};
use crate::ui_graph::ITEM_LABEL;
use crate::widget_abi::{
    Clip,
    fill_box, lemma_draw_wf, lemma_ops_wf_append, no_ops, push_fill_box, push_text, rect_clip, spec_rect_clip, style_fits, text_field,
    text_ops, text_prop, Advance, InputEvent, Stop, TextStyle, WidgetEvent,
};
use crate::widgets::dropdown::ITEM_VALUE;

verus! {

/// The kind of an item of a list (`ITM`).
pub const ITEM: u32 = 0x49544d;

/// The rows of an entry.
pub const ITEM_HEIGHT: i64 = 36;

/// An entry: its label, its value, and the bitmap of its icon, if any.
pub struct ItemState {
    pub label: String,
    pub value: String,
    pub icon_bmp: Option<Vec<u8>>,
}

/// What an entry denotes.
pub struct ItemView {
    pub label: Seq<char>,
    pub value: Seq<char>,
    pub icon_bmp: Option<Seq<u8>>,
}

/// The views of a list of entries.
pub open spec fn items_view(s: Seq<ItemState>) -> Seq<ItemView> {
    s.map_values(
        |i: ItemState|
            ItemView {
                label: i.label@,
                value: i.value@,
                icon_bmp: match i.icon_bmp {
                    Some(b) => Some(b@),
                    None => None,
                },
            },
    )
}

/// The icons entries may show, by name: the BMP bytes the caller has for
/// `home`, `menu`, `settings` and `close`.
pub struct IconSet {
    pub home: Option<Vec<u8>>,
    pub menu: Option<Vec<u8>>,
    pub settings: Option<Vec<u8>>,
    pub close: Option<Vec<u8>>,
}

/// What an icon set denotes.
pub struct IconSetView {
    pub home: Option<Seq<u8>>,
    pub menu: Option<Seq<u8>>,
    pub settings: Option<Seq<u8>>,
    pub close: Option<Seq<u8>>,
}

/// The view of optional bytes.
pub open spec fn bytes_view(b: Option<Vec<u8>>) -> Option<Seq<u8>> {
    match b {
        Some(v) => Some(v@),
        None => None,
    }
}

impl View for IconSet {
    type V = IconSetView;

    open spec fn view(&self) -> IconSetView {
        IconSetView {
            home: bytes_view(self.home),
            menu: bytes_view(self.menu),
            settings: bytes_view(self.settings),
            close: bytes_view(self.close),
        }
    }
}

/// A list box's state.
pub struct State {
    pub items: Vec<ItemState>,
    pub selected_index: i32,
    pub focused_index: i32,
    pub has_focus: bool,
    pub control_node: u128,
    pub value_node: Option<u128>,
}

/// What a list box's state denotes.
pub struct StateView {
    pub items: Seq<ItemView>,
    pub selected_index: i32,
    pub focused_index: i32,
    pub has_focus: bool,
    pub control_node: u128,
    pub value_node: Option<u128>,
}

impl View for State {
    type V = StateView;

    open spec fn view(&self) -> StateView {
        StateView {
            items: items_view(self.items@),
            selected_index: self.selected_index,
            focused_index: self.focused_index,
            has_focus: self.has_focus,
            control_node: self.control_node,
            value_node: self.value_node,
        }
    }
}

/// The icon an item's icon name picks from a set.
pub open spec fn icon_named(icons: IconSetView, name: Seq<char>) -> Option<Seq<u8>> {
    if name == "home"@ {
        icons.home
    } else if name == "menu"@ {
        icons.menu
    } else if name == "settings"@ {
        icons.settings
    } else if name == "close"@ {
        icons.close
    } else {
        None
    }
}

/// The entry an item Thing's fields give: its label text (`?` without one),
/// value text (empty without one) and icon.
pub open spec fn spec_item(f: Map<u32, ValueView>, icons: IconSetView) -> ItemView {
    ItemView {
        label: match text_field(f, ITEM_LABEL) {
            Some(t) => t,
            None => "?"@,
        },
        value: match text_field(f, ITEM_VALUE) {
            Some(t) => t,
            None => Seq::empty(),
        },
        icon_bmp: icon_named(
            icons,
            match text_field(f, ICON_NAME) {
                Some(t) => t,
                None => Seq::empty(),
            },
        ),
    }
}

/// The entries of the items among `things` whose parent is the list box, in
/// order.
pub open spec fn spec_items(things: Seq<GraphThing>, control: u128, icons: IconSetView) -> Seq<ItemView>
    decreases things.len(),
{
    if things.len() == 0 {
        Seq::empty()
    } else {
        let rest = spec_items(things.drop_last(), control, icons);
        if field_uuid(things.last().fields@, PARENT) == Some(control) {
            rest.push(spec_item(things.last().fields@, icons))
        } else {
            rest
        }
    }
}

/// The Thing a list box's fields bind it to.
pub open spec fn spec_value_node(binds: Option<Map<u32, ValueView>>) -> Option<u128> {
    match binds {
        Some(p) => field_uuid(p, BINDS),
        None => None,
    }
}

/// A list box after reading: its binding, the selected index the bound
/// Thing holds (cut to 32 bits; 0 without one), focused too, and its
/// entries.
pub open spec fn spec_init(
    control: u128,
    binds: Option<Map<u32, ValueView>>,
    bound: Option<Map<u32, ValueView>>,
    things: Seq<GraphThing>,
    icons: IconSetView,
) -> StateView {
    let value_node = spec_value_node(binds);
    let selected: i32 = match (value_node, bound) {
        (Some(_), Some(p)) => match field_i64(p, SELECTED_INDEX) {
            Some(i) => i as i32,
            None => 0,
        },
        _ => 0,
    };
    StateView {
        items: spec_items(things, control, icons),
        selected_index: selected,
        focused_index: selected,
        has_focus: false,
        control_node: control,
        value_node,
    }
}

/// The write that publishes a selection to the bound Thing, if any.
pub open spec fn selection_write(s: StateView) -> Option<(u128, Map<u32, ValueView>)> {
    match s.value_node {
        Some(v) => Some((v, map![SELECTED_INDEX => ValueView::I64(s.selected_index as i64)])),
        None => None,
    }
}

/// A list box after an event, and the write it asks for: Up and Down move
/// the focus within the list, Home and End to its ends, Enter or Space
/// select the focused entry; a press on entry `y / 24` selects and focuses
/// it.
pub open spec fn spec_event(s: StateView, e: WidgetEvent) -> (StateView, Option<(u128, Map<u32, ValueView>)>) {
    let n = s.items.len() as int;
    match e {
        WidgetEvent::Input(InputEvent::KeyDown { key }) => if key == 0x415500 {
            (if s.focused_index > 0 {
                StateView { focused_index: (s.focused_index - 1) as i32, ..s }
            } else {
                s
            }, None)
        } else if key == 0x414400 {
            (if s.focused_index < n - 1 {
                StateView { focused_index: (s.focused_index + 1) as i32, ..s }
            } else {
                s
            }, None)
        } else if key == 0x484d00 {
            (StateView { focused_index: 0, ..s }, None)
        } else if key == 0x454400 {
            (StateView { focused_index: (if n - 1 > 0 { n - 1 } else { 0 }) as i32, ..s }, None)
        } else if key == 0x454e00 || key == 0x202000 {
            let s2 = StateView { selected_index: s.focused_index, ..s };
            (s2, selection_write(s2))
        } else {
            (s, None)
        },
        WidgetEvent::Input(InputEvent::MouseDown { y, .. }) => {
            let index = if y >= 0 {
                y / 24
            } else {
                -((-y) / 24)
            };
            if 0 <= index < n {
                let s2 = StateView { selected_index: index as i32, focused_index: index as i32, has_focus: true, ..s };
                (s2, selection_write(s2))
            } else {
                (s, None)
            }
        },
        _ => (s, None),
    }
}

/// A little-endian 32-bit number at byte `at`.
pub open spec fn le_u32(b: Seq<u8>, at: int) -> u32 {
    (b[at] as u32) | ((b[at + 1] as u32) << 8u32) | ((b[at + 2] as u32) << 16u32) | ((b[at + 3] as u32) << 24u32)
}

/// A little-endian 16-bit number at byte `at`.
pub open spec fn le_u16(b: Seq<u8>, at: int) -> u16 {
    (b[at] as u16) | ((b[at + 1] as u16) << 8u16)
}

/// What a drawable BMP's header says: its width, its height (rows stored
/// top-down when the header's height is negative), and where its pixels
/// start.
pub struct BmpHeader {
    pub width: int,
    pub height: int,
    pub top_down: bool,
    pub offset: int,
}

/// The header of a BMP that can be drawn: at least 54 bytes, a positive
/// width, a non-zero height, pixels starting inside it, 32 bits a pixel.
pub open spec fn bmp_header(b: Seq<u8>) -> Option<BmpHeader> {
    if b.len() < 54 {
        None
    } else {
        let w = le_u32(b, 18) as i32;
        let h = le_u32(b, 22) as i32;
        let off = le_u32(b, 10) as int;
        if w <= 0 || h == 0 || off >= b.len() || le_u16(b, 28) != 32 {
            None
        } else {
            Some(BmpHeader { width: w as int, height: if h < 0 { -(h as int) } else { h as int }, top_down: h < 0, offset: off })
        }
    }
}

/// The blend of the BMP pixel at `row`, `col` (BGRA bytes) placed at
/// `ox`, `oy`: none when its bytes run past the BMP, it is fully
/// transparent, or it falls outside the clip box.
pub open spec fn bmp_cell(b: Seq<u8>, hd: BmpHeader, ox: int, oy: int, c: Clip, row: int, col: int) -> Seq<PaintView> {
    let src_row = if hd.top_down {
        row
    } else {
        hd.height - 1 - row
    };
    let idx = hd.offset + (src_row * hd.width + col) * 4;
    if idx + 4 > b.len() || b[idx + 3] == 0 {
        Seq::empty()
    } else {
        let dx = ox + col;
        let dy = oy + row;
        if dx < c.x0 || dx >= c.x1 || dy < c.y0 || dy >= c.y1 {
            Seq::empty()
        } else {
            seq![PaintView::Mix { x: dx, y: dy, src: Pixel(b[idx + 2], b[idx + 1], b[idx], b[idx + 3]) }]
        }
    }
}

/// The blends of a BMP row from column `col`.
pub open spec fn bmp_cols(b: Seq<u8>, hd: BmpHeader, ox: int, oy: int, c: Clip, row: int, col: int) -> Seq<PaintView>
    decreases hd.width - col,
{
    if col < 0 || col >= hd.width {
        Seq::empty()
    } else {
        bmp_cell(b, hd, ox, oy, c, row, col) + bmp_cols(b, hd, ox, oy, c, row, col + 1)
    }
}

/// The blends of a BMP from row `row`, top first.
pub open spec fn bmp_rows(b: Seq<u8>, hd: BmpHeader, ox: int, oy: int, c: Clip, row: int) -> Seq<PaintView>
    decreases hd.height - row,
{
    if row < 0 || row >= hd.height {
        Seq::empty()
    } else {
        bmp_cols(b, hd, ox, oy, c, row, 0) + bmp_rows(b, hd, ox, oy, c, row + 1)
    }
}

/// A BMP blended in at `ox`, `oy`, cut to a clip box (nothing for a BMP that
/// cannot be drawn).
pub open spec fn bmp_ops(b: Seq<u8>, ox: int, oy: int, c: Clip) -> Seq<PaintView> {
    match bmp_header(b) {
        Some(hd) => bmp_rows(b, hd, ox, oy, c, 0),
        None => Seq::empty(),
    }
}

/// How a label is set: each glyph's own columns, 8 columns apart, in white,
/// cut to the list box.
pub open spec fn label_style(r: Rect) -> TextStyle {
    TextStyle {
        eight_columns: false,
        advance: Advance::Fixed,
        multiline: false,
        stop: Stop::Never,
        clip: spec_rect_clip(r),
        pixel: spec_argb(0xffff_ffff),
    }
}

/// The outline of the focused entry, in yellow.
pub open spec fn entry_outline(r: Rect, y: int) -> Seq<PaintView> {
    let w = r.width as int;
    let p = spec_argb(0xffff_ff00);
    fill_box(r.x as int, y, r.x + w, y + 1, w, p) + fill_box(r.x as int, y + 35, r.x + w, y + 36, w, p) + fill_box(
        r.x as int,
        y,
        r.x + 1,
        y + 36,
        w,
        p,
    ) + fill_box(r.x + w - 1, y, r.x + w, y + 36, w, p)
}

/// Entry `i` at row `y`: filled (blue when selected, grey otherwise),
/// outlined when focused, its icon blended in, and its label set after it.
pub open spec fn entry_here(s: StateView, r: Rect, i: int, y: int) -> Seq<PaintView> {
    let it = s.items[i];
    let w = r.width as int;
    let bg = if i == s.selected_index {
        0xff44_44aa
    } else {
        0xff33_3333
    };
    let outline = if i == s.focused_index && s.has_focus {
        entry_outline(r, y)
    } else {
        Seq::empty()
    };
    let icon = match it.icon_bmp {
        Some(b) => bmp_ops(b, r.x + 4, y + 2, Clip { x0: r.x as i64, y0: y as i64, x1: (r.x + w) as i64, y1: (y + 36) as i64 }),
        None => Seq::empty(),
    };
    let tx = r.x + 4 + if it.icon_bmp is Some {
        36int
    } else {
        0int
    };
    fill_box(r.x as int, y, r.x + w, y + 36, w, spec_argb(bg)) + outline + icon + text_ops(it.label, tx, y + 10, tx, label_style(r))
}

/// The entries from entry `i`, the first at row `y`, while they fit in the
/// list box.
pub open spec fn entry_ops(s: StateView, r: Rect, i: int, y: int) -> Seq<PaintView>
    decreases s.items.len() - i,
{
    if i < 0 || i >= s.items.len() || y + 36 > r.y + r.height {
        Seq::empty()
    } else {
        entry_here(s, r, i, y) + entry_ops(s, r, i + 1, y + 36)
    }
}

/// The drawing of a list box: its background, then its entries.
pub open spec fn spec_draw(s: StateView, r: Rect) -> Seq<PaintView> {
    fill_box(r.x as int, r.y as int, r.x + r.width, r.y + r.height, r.width as int, spec_argb(0xff22_2222)) + entry_ops(s, r, 0, r.y as int)
}

/// A rect a list box can be drawn in: at least one column wide, at or right
/// of column 0 and at or below row 0 (left of it an icon's pixel offsets
/// would wrap round into the row above), its far edges within `i32`.
pub open spec fn drawable(r: Rect) -> bool {
    &&& r.width > 0
    &&& r.x >= 0
    &&& r.y >= 0
    &&& r.x + r.width <= i32::MAX
    &&& r.y + r.height <= i32::MAX
}

/// Labels whose 8-column pen stays within `i32` (the pen of a label of
/// 2^28 characters would pass it).
pub open spec fn labels_fit(s: StateView) -> bool {
    forall|i: int| 0 <= i < s.items.len() ==> #[trigger] s.items[i].label.len() < 0x1000_0000
}

fn le_u32_at(b: &Vec<u8>, at: usize) -> (r: u32)
    requires
        at + 4 <= b@.len(),
    ensures
        r == le_u32(b@, at as int),
{
    let _n: usize = b.len();
    (b[at] as u32) | ((b[at + 1] as u32) << 8u32) | ((b[at + 2] as u32) << 16u32) | ((b[at + 3] as u32) << 24u32)
}

fn le_u16_at(b: &Vec<u8>, at: usize) -> (r: u16)
    requires
        at + 2 <= b@.len(),
    ensures
        r == le_u16(b@, at as int),
{
    let _n: usize = b.len();
    (b[at] as u16) | ((b[at + 1] as u16) << 8u16)
}

fn push_op(ops: &mut Vec<Paint>, op: Paint, Ghost(added): Ghost<Seq<PaintView>>, Ghost(start): Ghost<Seq<PaintView>>)
    requires
        paint_views(old(ops)@) == start + added,
    ensures
        paint_views(final(ops)@) == start + added.push(op@),
{
    let ghost v = op@;
    let ghost before = paint_views(ops@);
    ops.push(op);
    proof {
        assert(paint_views(ops@) =~= before.push(v));
        assert(paint_views(ops@) =~= start + added.push(v));
    }
}

/// Append the blends of a BMP placed at `ox`, `oy`, cut to a clip box.
fn push_bmp(ops: &mut Vec<Paint>, b: &Vec<u8>, ox: i64, oy: i64, c: Clip, Ghost(st): Ghost<int>)
    requires
        0 <= c.x0,
        0 <= c.y0,
        -0x1_0000_0000 <= ox <= 0x1_0000_0000,
        -0x1_0000_0000 <= oy <= 0x1_0000_0000,
    ensures
        paint_views(final(ops)@) == paint_views(old(ops)@) + bmp_ops(b@, ox as int, oy as int, c),
        ops_wf(paint_views(old(ops)@), st) ==> ops_wf(paint_views(final(ops)@), st),
{
    let ghost start = paint_views(ops@);
    let n = b.len();
    if n < 54 {
        proof {
            assert(start + Seq::<PaintView>::empty() =~= start);
        }
        return;
    }
    let w = le_u32_at(b, 18) as i32;
    let h = le_u32_at(b, 22) as i32;
    let off = le_u32_at(b, 10) as usize;
    if w <= 0 || h == 0 || off >= n || le_u16_at(b, 28) != 32 {
        proof {
            assert(start + Seq::<PaintView>::empty() =~= start);
        }
        return;
    }
    let top_down = h < 0;
    let height: i64 = if h < 0 {
        -(h as i64)
    } else {
        h as i64
    };
    let width: i64 = w as i64;
    let ghost hd = BmpHeader { width: width as int, height: height as int, top_down, offset: off as int };
    let ghost bs = b@;
    let ghost mut added: Seq<PaintView> = Seq::empty();
    proof {
        assert(bmp_ops(bs, ox as int, oy as int, c) == bmp_rows(bs, hd, ox as int, oy as int, c, 0));
        assert(paint_views(ops@) =~= start + added);
        assert(bmp_rows(bs, hd, ox as int, oy as int, c, 0) =~= added + bmp_rows(bs, hd, ox as int, oy as int, c, 0));
    }
    let mut row: i64 = 0;
    while row < height
        invariant
            0 <= row <= height,
            1 <= width <= i32::MAX,
            1 <= height <= 0x8000_0000,
            n == bs.len(),
            bs == b@,
            off < n,
            hd == (BmpHeader { width: width as int, height: height as int, top_down, offset: off as int }),
            0 <= c.x0,
            0 <= c.y0,
            -0x1_0000_0000 <= ox <= 0x1_0000_0000,
            -0x1_0000_0000 <= oy <= 0x1_0000_0000,
            paint_views(ops@) == start + added,
            forall|k: int| 0 <= k < added.len() ==> #[trigger] crate::raster::paint_wf(added[k], st),
            bmp_rows(bs, hd, ox as int, oy as int, c, 0) == added + bmp_rows(bs, hd, ox as int, oy as int, c, row as int),
        decreases height - row,
    {
        let ghost at_row = added;
        proof {
            assert(bmp_rows(bs, hd, ox as int, oy as int, c, row as int) == bmp_cols(bs, hd, ox as int, oy as int, c, row as int, 0)
                + bmp_rows(bs, hd, ox as int, oy as int, c, row + 1));
            assert(bmp_cols(bs, hd, ox as int, oy as int, c, row as int, 0) =~= Seq::<PaintView>::empty() + bmp_cols(
                bs,
                hd,
                ox as int,
                oy as int,
                c,
                row as int,
                0,
            ));
            assert(at_row =~= at_row + Seq::<PaintView>::empty());
        }
        let src_row: i64 = if top_down {
            row
        } else {
            height - 1 - row
        };
        let mut col: i64 = 0;
        while col < width
            invariant
                0 <= row < height,
                0 <= col <= width,
                1 <= width <= i32::MAX,
                1 <= height <= 0x8000_0000,
                0 <= src_row < height,
                src_row == (if top_down { row as int } else { height - 1 - row }),
                n == bs.len(),
                bs == b@,
                off < n,
                hd == (BmpHeader { width: width as int, height: height as int, top_down, offset: off as int }),
                0 <= c.x0,
                0 <= c.y0,
                -0x1_0000_0000 <= ox <= 0x1_0000_0000,
                -0x1_0000_0000 <= oy <= 0x1_0000_0000,
                paint_views(ops@) == start + added,
                forall|k: int| 0 <= k < added.len() ==> #[trigger] crate::raster::paint_wf(added[k], st),
                added.len() >= at_row.len(),
                at_row == added.take(at_row.len() as int),
                bmp_cols(bs, hd, ox as int, oy as int, c, row as int, 0) == added.skip(at_row.len() as int) + bmp_cols(
                    bs,
                    hd,
                    ox as int,
                    oy as int,
                    c,
                    row as int,
                    col as int,
                ),
            decreases width - col,
        {
            assert((src_row as u128) * (width as u128) <= 0x8000_0000u128 * 0x8000_0000u128) by (nonlinear_arith)
                requires
                    0 <= src_row < 0x8000_0000,
                    0 <= width <= 0x8000_0000,
            ;
            let idx: u128 = off as u128 + ((src_row as u128) * (width as u128) + col as u128) * 4;
            let ghost before = added;
            let ghost cell = bmp_cell(bs, hd, ox as int, oy as int, c, row as int, col as int);
            if idx + 4 <= n as u128 {
                let i = idx as usize;
                let a = b[i + 3];
                let dx = ox + col;
                let dy = oy + row;
                if a != 0 && c.x0 <= dx && dx < c.x1 && c.y0 <= dy && dy < c.y1 {
                    let op = Paint::Mix { x: dx, y: dy, src: Pixel(b[i + 2], b[i + 1], b[i], a) };
                    push_op(ops, op, Ghost(added), Ghost(start));
                    proof {
                        added = added.push(PaintView::Mix { x: dx as int, y: dy as int, src: Pixel(bs[i + 2], bs[i + 1], bs[i as int], a) });
                        assert(cell == seq![PaintView::Mix { x: dx as int, y: dy as int, src: Pixel(bs[i + 2], bs[i + 1], bs[i as int], a) }]);
                    }
                } else {
                    proof {
                        assert(cell =~= Seq::<PaintView>::empty());
                    }
                }
            } else {
                proof {
                    assert(cell =~= Seq::<PaintView>::empty());
                }
            }
            proof {
                assert(added =~= before + cell);
                assert(bmp_cols(bs, hd, ox as int, oy as int, c, row as int, col as int) == cell + bmp_cols(
                    bs,
                    hd,
                    ox as int,
                    oy as int,
                    c,
                    row as int,
                    col + 1,
                ));
                assert(added.skip(at_row.len() as int) =~= before.skip(at_row.len() as int) + cell);
                assert(added.take(at_row.len() as int) =~= before.take(at_row.len() as int));
                assert forall|k: int| 0 <= k < added.len() implies #[trigger] crate::raster::paint_wf(added[k], st) by {
                    if k < before.len() {
                        assert(added[k] == before[k]);
                    }
                }
            }
            col = col + 1;
        }
        proof {
            assert(bmp_cols(bs, hd, ox as int, oy as int, c, row as int, col as int) =~= Seq::<PaintView>::empty());
            assert(added =~= at_row + added.skip(at_row.len() as int));
            assert(added.skip(at_row.len() as int) =~= bmp_cols(bs, hd, ox as int, oy as int, c, row as int, 0));
        }
        row = row + 1;
    }
    proof {
        assert(bmp_rows(bs, hd, ox as int, oy as int, c, row as int) =~= Seq::<PaintView>::empty());
        assert(added =~= bmp_rows(bs, hd, ox as int, oy as int, c, 0));
        if ops_wf(start, st) {
            lemma_ops_wf_append(start, added, st);
        }
    }
}

fn copy_vec(b: &Vec<u8>) -> (r: Vec<u8>)
    ensures
        r@ == b@,
{
    let mut r: Vec<u8> = Vec::new();
    let mut i: usize = 0;
    while i < b.len()
        invariant
            i <= b@.len(),
            r@ == b@.take(i as int),
        decreases b@.len() - i,
    {
        r.push(b[i]);
        proof {
            assert(b@.take(i + 1) =~= b@.take(i as int).push(b@[i as int]));
        }
        i = i + 1;
    }
    proof {
        assert(b@.take(i as int) =~= b@);
    }
    r
}

fn copy_icon(b: &Option<Vec<u8>>) -> (r: Option<Vec<u8>>)
    ensures
        bytes_view(r) == bytes_view(*b),
{
    match b {
        Some(v) => Some(copy_vec(v)),
        None => None,
    }
}

impl IconSet {
    fn named(&self, name: &str) -> (r: Option<Vec<u8>>)
        ensures
            bytes_view(r) == icon_named(self@, name@),
    {
        if str_eq(name, "home") {
            copy_icon(&self.home)
        } else if str_eq(name, "menu") {
            copy_icon(&self.menu)
        } else if str_eq(name, "settings") {
            copy_icon(&self.settings)
        } else if str_eq(name, "close") {
            copy_icon(&self.close)
        } else {
            None
        }
    }
}

fn item_of(f: &SymbolMap, icons: &IconSet) -> (it: ItemState)
    ensures
        (ItemView { label: it.label@, value: it.value@, icon_bmp: bytes_view(it.icon_bmp) }) == spec_item(f@, icons@),
{
    let label = match text_prop(f, ITEM_LABEL) {
        Some(t) => t,
        None => String::from_str("?"),
    };
    let value = match text_prop(f, ITEM_VALUE) {
        Some(t) => t,
        None => String::new(),
    };
    let name = match text_prop(f, ICON_NAME) {
        Some(t) => t,
        None => String::new(),
    };
    proof {
        reveal_strlit("");
    }
    let icon_bmp = icons.named(name.as_str());
    ItemState { label, value, icon_bmp }
}

/// The 32-bit index of the entry under row `y` (24 rows an entry).
pub open spec fn row_index(y: i32) -> int {
    if y >= 0 {
        y / 24
    } else {
        -((-y) / 24)
    }
}

/// Append entry `i`, drawn at row `y`.
fn push_entry(ops: &mut Vec<Paint>, state: &State, rect: Rect, i: usize, y: i64, st: TextStyle)
    requires
        drawable(rect),
        labels_fit(state@),
        st == label_style(rect),
        i < state.items@.len(),
        rect.y <= y <= rect.y + rect.height,
    ensures
        paint_views(final(ops)@) == paint_views(old(ops)@) + entry_here(state@, rect, i as int, y as int),
        ops_wf(paint_views(old(ops)@), rect.width as int) ==> ops_wf(paint_views(final(ops)@), rect.width as int),
{
    let w = rect.width as i64;
    let rx = rect.x as i64;
    let ghost before = paint_views(ops@);
    let it = &state.items[i];
    proof {
        assert(state@.items[i as int] == ItemView { label: it.label@, value: it.value@, icon_bmp: bytes_view(it.icon_bmp) });
        assert(state@.items[i as int].label.len() < 0x1000_0000);
        lemma_draw_wf(w as int);
    }
    let bg: u32 = if state.selected_index >= 0 && state.selected_index as usize == i {
        0xff44_44aa
    } else {
        0xff33_3333
    };
    push_fill_box(ops, rx, y, rx + w, y + 36, rect.width, argb(bg));
    proof {
        if ops_wf(before, w as int) {
            lemma_ops_wf_append(before, fill_box(rx as int, y as int, rx + w, y + 36, w as int, spec_argb(bg)), w as int);
        }
    }
    let ghost after_bg = paint_views(ops@);
    if state.focused_index >= 0 && state.focused_index as usize == i && state.has_focus {
        let p = argb(0xffff_ff00);
        push_fill_box(ops, rx, y, rx + w, y + 1, rect.width, p);
        push_fill_box(ops, rx, y + 35, rx + w, y + 36, rect.width, p);
        push_fill_box(ops, rx, y, rx + 1, y + 36, rect.width, p);
        push_fill_box(ops, rx + w - 1, y, rx + w, y + 36, rect.width, p);
        proof {
            assert(paint_views(ops@) =~= after_bg + entry_outline(rect, y as int));
            let fp = spec_argb(0xffff_ff00);
            let wi = w as int;
            lemma_ops_wf_append(fill_box(rx as int, y as int, rx + wi, y + 1, wi, fp), fill_box(rx as int, y + 35, rx + wi, y + 36, wi, fp), wi);
            lemma_ops_wf_append(fill_box(rx as int, y as int, rx + wi, y + 1, wi, fp) + fill_box(rx as int, y + 35, rx + wi, y + 36, wi, fp), fill_box(rx as int, y as int, rx + 1, y + 36, wi, fp), wi);
            lemma_ops_wf_append(fill_box(rx as int, y as int, rx + wi, y + 1, wi, fp) + fill_box(rx as int, y + 35, rx + wi, y + 36, wi, fp) + fill_box(rx as int, y as int, rx + 1, y + 36, wi, fp), fill_box(rx + wi - 1, y as int, rx + wi, y + 36, wi, fp), wi);
            if ops_wf(after_bg, wi) {
                lemma_ops_wf_append(after_bg, entry_outline(rect, y as int), wi);
            }
        }
    } else {
        proof {
            assert(paint_views(ops@) =~= after_bg + Seq::<PaintView>::empty());
        }
    }
    let ghost after_outline = paint_views(ops@);
    let c = Clip { x0: rx, y0: y, x1: rx + w, y1: y + 36 };
    let tx: i64 = match &it.icon_bmp {
        Some(b) => {
            push_bmp(ops, b, rx + 4, y + 2, c, Ghost(w as int));
            rx + 40
        },
        None => {
            proof {
                assert(paint_views(ops@) =~= after_outline + Seq::<PaintView>::empty());
            }
            rx + 4
        },
    };
    let ghost after_icon = paint_views(ops@);
    push_text(ops, it.label.as_str(), tx, y + 10, st);
    proof {
        assert(style_fits(st, w as int));
        if ops_wf(after_icon, w as int) {
            lemma_ops_wf_append(after_icon, text_ops(it.label@, tx as int, y + 10, tx as int, st), w as int);
        }
        let it_v = state@.items[i as int];
        let outline = if i as int == state@.focused_index && state@.has_focus {
            entry_outline(rect, y as int)
        } else {
            Seq::<PaintView>::empty()
        };
        let icon = match it_v.icon_bmp {
            Some(b) => bmp_ops(b, rect.x + 4, y + 2, Clip { x0: rect.x as i64, y0: y as i64, x1: (rect.x + w) as i64, y1: (y + 36) as i64 }),
            None => Seq::<PaintView>::empty(),
        };
        assert(after_outline == after_bg + outline);
        assert(after_icon == after_outline + icon);
        assert(paint_views(ops@) =~= before + entry_here(state@, rect, i as int, y as int));
    }
}

/// The list box widget.
pub struct ListboxDefaultWidget;

impl ListboxDefaultWidget {
    /// The Thing the list box's fields (read as `binds`) bind it to.
    pub fn value_node(binds: Option<&SymbolMap>) -> (r: Option<u128>)
        ensures
            r == spec_value_node(crate::widget_abi::props_view(binds)),
    {
        match binds {
            Some(p) => get_uuid(p, BINDS),
            None => None,
        }
    }

    /// A list box whose fields read as `binds`, whose bound Thing reads as
    /// `bound`, among the `things` of kind `ITEM`, with the icons `icons`.
    pub fn init(control: u128, binds: Option<&SymbolMap>, bound: Option<&SymbolMap>, things: &Vec<GraphThing>, icons: &IconSet) -> (s: State)
        ensures
            s@ == spec_init(
                control,
                crate::widget_abi::props_view(binds),
                crate::widget_abi::props_view(bound),
                things@,
                icons@,
            ),
    {
        let value_node = Self::value_node(binds);
        let selected: i32 = match (value_node, bound) {
            (Some(_), Some(p)) => match get_i64(p, SELECTED_INDEX) {
                Some(i) => i as i32,
                None => 0,
            },
            _ => 0,
        };
        let mut items: Vec<ItemState> = Vec::new();
        let mut k: usize = 0;
        proof {
            assert(things@.take(0) =~= Seq::<GraphThing>::empty());
            assert(items_view(items@) =~= Seq::<ItemView>::empty());
        }
        while k < things.len()
            invariant
                k <= things@.len(),
                items_view(items@) == spec_items(things@.take(k as int), control, icons@),
            decreases things@.len() - k,
        {
            proof {
                assert(things@.take(k + 1).drop_last() =~= things@.take(k as int));
                assert(things@.take(k + 1).last() == things@[k as int]);
            }
            if get_uuid(&things[k].fields, PARENT) == Some(control) {
                let it = item_of(&things[k].fields, icons);
                let ghost before = items_view(items@);
                items.push(it);
                proof {
                    assert(items_view(items@) =~= before.push(spec_item(things@[k as int].fields@, icons@)));
                }
            }
            k = k + 1;
        }
        proof {
            assert(things@.take(k as int) =~= things@);
        }
        State { items, selected_index: selected, focused_index: selected, has_focus: false, control_node: control, value_node }
    }

    fn publish(state: &State) -> (r: Option<(u128, SymbolMap)>)
        ensures
            match r {
                Some((n, m)) => selection_write(state@) == Some((n, m@)),
                None => selection_write(state@) is None,
            },
    {
        match state.value_node {
            Some(v) => {
                let mut m = SymbolMap::new();
                m.insert(Symbol(SELECTED_INDEX), Value::I64(state.selected_index as i64));
                proof {
                    assert(m@ =~= map![SELECTED_INDEX => ValueView::I64(state.selected_index as i64)]);
                }
                Some((v, m))
            },
            None => None,
        }
    }

    /// Handle an event; returns the write of the selection it asks for.
    pub fn handle_event(state: &mut State, event: WidgetEvent) -> (r: Option<(u128, SymbolMap)>)
        requires
            old(state).items@.len() <= i32::MAX,
        ensures
            final(state)@ == spec_event(old(state)@, event).0,
            match r {
                Some((n, m)) => spec_event(old(state)@, event).1 == Some((n, m@)),
                None => spec_event(old(state)@, event).1 is None,
            },
    {
        let n: i64 = state.items.len() as i64;
        match event {
            WidgetEvent::Input(InputEvent::KeyDown { key }) => {
                if key == 0x415500 {
                    if state.focused_index > 0 {
                        state.focused_index = state.focused_index - 1;
                    }
                    None
                } else if key == 0x414400 {
                    if (state.focused_index as i64) < n - 1 {
                        state.focused_index = state.focused_index + 1;
                    }
                    None
                } else if key == 0x484d00 {
                    state.focused_index = 0;
                    None
                } else if key == 0x454400 {
                    state.focused_index = (if n - 1 > 0 {
                        n - 1
                    } else {
                        0
                    }) as i32;
                    None
                } else if key == 0x454e00 || key == 0x202000 {
                    state.selected_index = state.focused_index;
                    Self::publish(state)
                } else {
                    None
                }
            },
            WidgetEvent::Input(InputEvent::MouseDown { y, .. }) => {
                let index: i64 = if y >= 0 {
                    y as i64 / 24
                } else {
                    -((-(y as i64)) / 24)
                };
                if 0 <= index && index < n {
                    state.selected_index = index as i32;
                    state.focused_index = index as i32;
                    state.has_focus = true;
                    Self::publish(state)
                } else {
                    None
                }
            },
            _ => None,
        }
    }

    /// The paint operations of a drawing.
    pub fn draw_ops(state: &State, rect: Rect) -> (ops: Vec<Paint>)
        requires
            drawable(rect),
            labels_fit(state@),
        ensures
            paint_views(ops@) == spec_draw(state@, rect),
            ops_wf(paint_views(ops@), rect.width as int),
    {
        let w = rect.width as i64;
        let h = rect.height as i64;
        let rx = rect.x as i64;
        let ry = rect.y as i64;
        let mut ops = no_ops();
        push_fill_box(&mut ops, rx, ry, rx + w, ry + h, rect.width, argb(0xff22_2222));
        let ghost head = paint_views(ops@);
        proof {
            lemma_draw_wf(w as int);
            assert(head =~= Seq::<PaintView>::empty() + fill_box(rx as int, ry as int, rx + w, ry + h, w as int, spec_argb(0xff22_2222)));
        }
        let st = TextStyle {
            eight_columns: false,
            advance: Advance::Fixed,
            multiline: false,
            stop: Stop::Never,
            clip: rect_clip(rect),
            pixel: argb(0xffff_ffff),
        };
        let mut i: usize = 0;
        let mut y: i64 = ry;
        let mut stopped = false;
        while i < state.items.len() && !stopped
            invariant
                drawable(rect),
                labels_fit(state@),
                w == rect.width,
                h == rect.height,
                rx == rect.x,
                ry == rect.y,
                st == label_style(rect),
                i <= state.items@.len(),
                state@.items.len() == state.items@.len(),
                ry <= y <= ry + h,
                y == ry + 36 * i,
                ops_wf(paint_views(ops@), w as int),
                head + entry_ops(state@, rect, 0, ry as int) == paint_views(ops@) + (if stopped {
                    Seq::<PaintView>::empty()
                } else {
                    entry_ops(state@, rect, i as int, y as int)
                }),
            decreases state.items@.len() - i + (if stopped { 0int } else { 1int }),
        {
            if y + 36 > ry + h {
                stopped = true;
                proof {
                    assert(paint_views(ops@) + Seq::<PaintView>::empty() =~= paint_views(ops@));
                }
            } else {
                let ghost before = paint_views(ops@);
                push_entry(&mut ops, state, rect, i, y, st);
                proof {
                    assert(entry_ops(state@, rect, i as int, y as int) == entry_here(state@, rect, i as int, y as int) + entry_ops(state@, rect, i + 1, y + 36));
                    assert(before + (entry_here(state@, rect, i as int, y as int) + entry_ops(state@, rect, i + 1, y + 36)) =~= (before + entry_here(state@, rect, i as int, y as int)) + entry_ops(state@, rect, i + 1, y + 36));
                }
                i = i + 1;
                y = y + 36;
            }
        }
        proof {
            if !stopped {
                assert(entry_ops(state@, rect, i as int, y as int) =~= Seq::<PaintView>::empty());
                assert(paint_views(ops@) + Seq::<PaintView>::empty() =~= paint_views(ops@));
            }
            assert(paint_views(ops@) =~= spec_draw(state@, rect));
        }
        ops
    }

    /// Draw the list box into a buffer `rect.width` pixels wide.
    pub fn draw(state: &State, fb: &mut [u8], rect: Rect)
        requires
            drawable(rect),
            labels_fit(state@),
        ensures
            final(fb)@ == render(old(fb)@, rect.width as int, spec_draw(state@, rect)),
    {
        let ops = Self::draw_ops(state, rect);
        paint_all(fb, rect.width, &ops);
    }
}

} // verus!
