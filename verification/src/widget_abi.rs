//! What widgets share: the events they receive, and the paint operations
//! their drawings are made of (filled boxes, and runs of text set glyph by
//! glyph in one of the ways the widgets lay text out).

use vstd::prelude::*;
use vstd::math::{abs, max, min};
use crate::abi::{SymbolMap, ValueView};
use crate::canon::Symbol;
use crate::raster::{get_glyph, glyph_width, ops_wf, spec_glyph, GlyphView, Paint, PaintView, Pixel};

pub use crate::raster::Rect;

verus! {

/// Input a widget receives.
#[derive(Clone, Copy, Debug, PartialEq, Eq, Structural)]
pub enum InputEvent {
    MouseMove { x: i32, y: i32 },
    MouseDown { x: i32, y: i32, button: u8 },
    MouseUp { x: i32, y: i32, button: u8 },
    KeyDown { key: u32 },
    KeyUp { key: u32 },
}

/// An event a widget receives.
#[derive(Clone, Copy, Debug, PartialEq, Eq, Structural)]
pub enum WidgetEvent {
    Paint,
    Input(InputEvent),
}

/// A coordinate beyond any buffer: a clip edge that does not clip.
pub const NOCLIP: i64 = 0x100_0000_0000;

/// The box `x0..x1` by `y0..y1`, cut at column and row 0, as fills at most
/// `stride` wide (side by side, in order).
pub open spec fn fill_box(x0: int, y0: int, x1: int, y1: int, stride: int, pixel: Pixel) -> Seq<PaintView>
    decreases x1 - x0,
{
    let a = max(x0, 0);
    let b = max(y0, 0);
    if stride <= 0 || x1 <= a || y1 <= b {
        Seq::empty()
    } else if x1 - a <= stride {
        seq![PaintView::Fill { x0: a, y0: b, x1, y1, pixel }]
    } else {
        seq![PaintView::Fill { x0: a, y0: b, x1: a + stride, y1, pixel }] + fill_box(a + stride, b, x1, y1, stride, pixel)
    }
}

proof fn lemma_fill_box_wf(x0: int, y0: int, x1: int, y1: int, stride: int, pixel: Pixel)
    ensures
        ops_wf(fill_box(x0, y0, x1, y1, stride, pixel), stride),
    decreases x1 - x0,
{
    let a = max(x0, 0);
    let b = max(y0, 0);
    if stride <= 0 || x1 <= a || y1 <= b {
    } else if x1 - a <= stride {
    } else {
        lemma_fill_box_wf(a + stride, b, x1, y1, stride, pixel);
        let rest = fill_box(a + stride, b, x1, y1, stride, pixel);
        let all = fill_box(x0, y0, x1, y1, stride, pixel);
        assert forall|k: int| 0 <= k < all.len() implies crate::raster::paint_wf(#[trigger] all[k], stride) by {
            if k > 0 {
                assert(all[k] == rest[k - 1]);
            }
        }
    }
}

/// Append the fills of a box to a list.
pub fn push_fill_box(ops: &mut Vec<Paint>, x0: i64, y0: i64, x1: i64, y1: i64, stride: u32, pixel: Pixel)
    requires
        -NOCLIP <= x0 <= NOCLIP,
        -NOCLIP <= y0 <= NOCLIP,
        -NOCLIP <= x1 <= NOCLIP,
        -NOCLIP <= y1 <= NOCLIP,
    ensures
        crate::raster::paint_views(final(ops)@) == crate::raster::paint_views(old(ops)@) + fill_box(
            x0 as int,
            y0 as int,
            x1 as int,
            y1 as int,
            stride as int,
            pixel,
        ),
{
    let ghost start = crate::raster::paint_views(old(ops)@);
    let b: i64 = if y0 < 0 {
        0
    } else {
        y0
    };
    let mut a: i64 = if x0 < 0 {
        0
    } else {
        x0
    };
    if stride == 0 || x1 <= a || y1 <= b {
        proof {
            assert(crate::raster::paint_views(ops@) =~= start + fill_box(x0 as int, y0 as int, x1 as int, y1 as int, stride as int, pixel));
        }
        return;
    }
    proof {
        assert(fill_box(x0 as int, y0 as int, x1 as int, y1 as int, stride as int, pixel) == fill_box(a as int, b as int, x1 as int, y1 as int, stride as int, pixel));
    }
    while x1 - a > stride as i64
        invariant
            stride > 0,
            0 <= a < x1 <= NOCLIP,
            0 <= b < y1,
            crate::raster::paint_views(old(ops)@) == start,
            start + fill_box(x0 as int, y0 as int, x1 as int, y1 as int, stride as int, pixel) == crate::raster::paint_views(ops@)
                + fill_box(a as int, b as int, x1 as int, y1 as int, stride as int, pixel),
        decreases x1 - a,
    {
        let ghost before = crate::raster::paint_views(ops@);
        ops.push(Paint::Fill { x0: a, y0: b, x1: a + stride as i64, y1, pixel });
        proof {
            assert(crate::raster::paint_views(ops@) =~= before.push(PaintView::Fill { x0: a as int, y0: b as int, x1: a + stride, y1: y1 as int, pixel }));
            assert(fill_box(a as int, b as int, x1 as int, y1 as int, stride as int, pixel) =~= seq![PaintView::Fill { x0: a as int, y0: b as int, x1: a + stride, y1: y1 as int, pixel }] + fill_box(a + stride, b as int, x1 as int, y1 as int, stride as int, pixel));
            assert(fill_box(a + stride, b as int, x1 as int, y1 as int, stride as int, pixel) == fill_box((a + stride) as int, b as int, x1 as int, y1 as int, stride as int, pixel));
        }
        a = a + stride as i64;
    }
    let ghost before = crate::raster::paint_views(ops@);
    ops.push(Paint::Fill { x0: a, y0: b, x1, y1, pixel });
    proof {
        assert(crate::raster::paint_views(ops@) =~= before.push(PaintView::Fill { x0: a as int, y0: b as int, x1: x1 as int, y1: y1 as int, pixel }));
        assert(fill_box(a as int, b as int, x1 as int, y1 as int, stride as int, pixel) =~= seq![PaintView::Fill { x0: a as int, y0: b as int, x1: x1 as int, y1: y1 as int, pixel }]);
        assert(crate::raster::paint_views(ops@) =~= start + fill_box(x0 as int, y0 as int, x1 as int, y1 as int, stride as int, pixel));
    }
}

/// How a run of text moves on after each character.
#[derive(Clone, Copy, Debug, PartialEq, Eq, Structural)]
pub enum Advance {
    /// 8 pixels per character, drawn or not.
    Fixed,
    /// 8 pixels per character the font has; the others are skipped.
    FontFixed,
    /// The glyph's width per character the font has; the others are skipped.
    FontWidth,
    /// The glyph's width, or 8 for a character the font lacks.
    WidthOrFixed,
}

/// Where a run of text stops early.
#[derive(Clone, Copy, Debug, PartialEq, Eq, Structural)]
pub enum Stop {
    Never,
    /// Before a character the font has whose 8 columns would pass this column.
    GlyphPast(i64),
    /// Before any character once the run is this wide.
    Width(i64),
}

/// A clip box: columns `x0..x1`, rows `y0..y1`.
#[derive(Clone, Copy, Debug, PartialEq, Eq, Structural)]
pub struct Clip {
    pub x0: i64,
    pub y0: i64,
    pub x1: i64,
    pub y1: i64,
}

/// How a run of text is set: glyph columns drawn (the first 8, or all),
/// advance, whether a newline returns to the start column 18 rows down,
/// where it stops, the clip box, and the pixel written.
#[derive(Clone, Copy, Debug, PartialEq, Eq, Structural)]
pub struct TextStyle {
    pub eight_columns: bool,
    pub advance: Advance,
    pub multiline: bool,
    pub stop: Stop,
    pub clip: Clip,
    pub pixel: Pixel,
}

/// The operation that sets a glyph at `gx`, `gy` in a style: its pixels in
/// its drawn columns and 16 rows, inside the clip box, at or right of column
/// 0 and at or below row 0.
pub open spec fn glyph_op(gx: int, gy: int, g: GlyphView, st: TextStyle) -> PaintView {
    let cols = if st.eight_columns {
        8
    } else {
        glyph_width(g)
    };
    PaintView::Glyph {
        x0: max(max(st.clip.x0 as int, gx), 0),
        y0: max(max(st.clip.y0 as int, gy), 0),
        x1: min(st.clip.x1 as int, gx + cols),
        y1: min(st.clip.y1 as int, gy + 16),
        gx,
        gy,
        glyph: g,
        pixel: st.pixel,
    }
}

/// How far a run moves on after a character.
pub open spec fn step(c: char, adv: Advance) -> int {
    match spec_glyph(c) {
        Some(g) => match adv {
            Advance::Fixed | Advance::FontFixed => 8,
            Advance::FontWidth | Advance::WidthOrFixed => glyph_width(g),
        },
        None => match adv {
            Advance::Fixed | Advance::WidthOrFixed => 8,
            Advance::FontFixed | Advance::FontWidth => 0,
        },
    }
}

/// The operations that set the characters `cs` from column `x`, row `y` (the
/// run having started at column `start_x`).
pub open spec fn text_ops(cs: Seq<char>, x: int, y: int, start_x: int, st: TextStyle) -> Seq<PaintView>
    decreases cs.len(),
{
    if cs.len() == 0 {
        Seq::empty()
    } else if (st.stop matches Stop::Width(m) && x - start_x >= m) {
        Seq::empty()
    } else if st.multiline && cs[0] == '\n' {
        text_ops(cs.drop_first(), start_x, y + 18, start_x, st)
    } else {
        match spec_glyph(cs[0]) {
            Some(g) => if (st.stop matches Stop::GlyphPast(l) && x + 8 > l) {
                Seq::empty()
            } else {
                seq![glyph_op(x, y, g, st)] + text_ops(cs.drop_first(), x + step(cs[0], st.advance), y, start_x, st)
            },
            None => text_ops(cs.drop_first(), x + step(cs[0], st.advance), y, start_x, st),
        }
    }
}

/// A style whose glyph boxes fit a buffer `stride` wide.
pub open spec fn style_fits(st: TextStyle, stride: int) -> bool {
    st.clip.x1 - st.clip.x0 <= stride || 16 <= stride
}

proof fn lemma_text_ops_wf(cs: Seq<char>, x: int, y: int, start_x: int, st: TextStyle, stride: int)
    requires
        style_fits(st, stride),
    ensures
        ops_wf(text_ops(cs, x, y, start_x, st), stride),
    decreases cs.len(),
{
    if cs.len() == 0 {
    } else if (st.stop matches Stop::Width(m) && x - start_x >= m) {
    } else if st.multiline && cs[0] == '\n' {
        lemma_text_ops_wf(cs.drop_first(), start_x, y + 18, start_x, st, stride);
    } else {
        lemma_text_ops_wf(cs.drop_first(), x + step(cs[0], st.advance), y, start_x, st, stride);
        match spec_glyph(cs[0]) {
            Some(g) => {
                if !(st.stop matches Stop::GlyphPast(l) && x + 8 > l) {
                    let rest = text_ops(cs.drop_first(), x + step(cs[0], st.advance), y, start_x, st);
                    let all = text_ops(cs, x, y, start_x, st);
                    assert forall|k: int| 0 <= k < all.len() implies crate::raster::paint_wf(#[trigger] all[k], stride) by {
                        if k > 0 {
                            assert(all[k] == rest[k - 1]);
                        }
                    }
                }
            },
            None => {},
        }
    }
}

/// The operations of a list, when every one fits a buffer `stride` wide.
pub proof fn lemma_ops_wf_append(a: Seq<PaintView>, b: Seq<PaintView>, stride: int)
    requires
        ops_wf(a, stride),
        ops_wf(b, stride),
    ensures
        ops_wf(a + b, stride),
{
    assert forall|k: int| 0 <= k < (a + b).len() implies crate::raster::paint_wf(#[trigger] (a + b)[k], stride) by {
        if k < a.len() {
            assert((a + b)[k] == a[k]);
        } else {
            assert((a + b)[k] == b[k - a.len()]);
        }
    }
}

/// Boxes and text runs fit their buffer.
pub proof fn lemma_draw_wf(stride: int)
    ensures
        forall|x0: int, y0: int, x1: int, y1: int, p: Pixel| ops_wf(#[trigger] fill_box(x0, y0, x1, y1, stride, p), stride),
        forall|cs: Seq<char>, x: int, y: int, sx: int, st: TextStyle|
            style_fits(st, stride) ==> ops_wf(#[trigger] text_ops(cs, x, y, sx, st), stride),
{
    assert forall|x0: int, y0: int, x1: int, y1: int, p: Pixel| ops_wf(#[trigger] fill_box(x0, y0, x1, y1, stride, p), stride) by {
        lemma_fill_box_wf(x0, y0, x1, y1, stride, p);
    }
    assert forall|cs: Seq<char>, x: int, y: int, sx: int, st: TextStyle|
        style_fits(st, stride) implies ops_wf(#[trigger] text_ops(cs, x, y, sx, st), stride) by {
        lemma_text_ops_wf(cs, x, y, sx, st, stride);
    }
}

fn max_i64(a: i64, b: i64) -> (r: i64)
    ensures
        r == max(a as int, b as int),
{
    if a >= b {
        a
    } else {
        b
    }
}

fn min_i64(a: i64, b: i64) -> (r: i64)
    ensures
        r == min(a as int, b as int),
{
    if a <= b {
        a
    } else {
        b
    }
}

/// Append the operations that set a text from column `x`, row `y`.
pub fn push_text(ops: &mut Vec<Paint>, text: &str, x: i64, y: i64, st: TextStyle)
    requires
        -NOCLIP <= x <= NOCLIP,
        -NOCLIP <= y <= NOCLIP,
        text@.len() < 0x1000_0000,
        st.stop matches Stop::Width(m) ==> -NOCLIP <= m <= NOCLIP,
        st.stop matches Stop::GlyphPast(l) ==> -NOCLIP <= l <= NOCLIP,
    ensures
        crate::raster::paint_views(final(ops)@) == crate::raster::paint_views(old(ops)@) + text_ops(
            text@,
            x as int,
            y as int,
            x as int,
            st,
        ),
{
    let ghost start = crate::raster::paint_views(old(ops)@);
    let ghost cs = text@;
    let ghost full = start + text_ops(cs, x as int, y as int, x as int, st);
    let n = text.unicode_len();
    let mut i: usize = 0;
    let mut cx: i64 = x;
    let mut cy: i64 = y;
    let mut stopped = false;
    proof {
        assert(cs.skip(0) =~= cs);
    }
    while i < n && !stopped
        invariant
            n == cs.len(),
            cs == text@,
            i <= n,
            n < 0x1000_0000,
            -NOCLIP <= x <= NOCLIP,
            -NOCLIP <= y <= NOCLIP,
            x - 16 * i <= cx <= x + 16 * i,
            y <= cy <= y + 18 * i,
            st.stop matches Stop::Width(m) ==> -NOCLIP <= m <= NOCLIP,
            st.stop matches Stop::GlyphPast(l) ==> -NOCLIP <= l <= NOCLIP,
            full == crate::raster::paint_views(ops@) + (if stopped {
                Seq::empty()
            } else {
                text_ops(cs.skip(i as int), cx as int, cy as int, x as int, st)
            }),
        decreases n - i + (if stopped { 0int } else { 1int }),
    {
        let ghost rest = cs.skip(i as int);
        let c = text.get_char(i);
        proof {
            assert(rest[0] == c);
            assert(rest.drop_first() =~= cs.skip(i + 1));
        }
        let width_stop = match st.stop {
            Stop::Width(m) => cx - x >= m,
            _ => false,
        };
        if width_stop {
            stopped = true;
            proof {
                assert(crate::raster::paint_views(ops@) + Seq::<PaintView>::empty() =~= crate::raster::paint_views(ops@));
            }
        } else if st.multiline && c == '\n' {
            cx = x;
            cy = cy + 18;
            i = i + 1;
        } else {
            match get_glyph(c) {
                Some(g) => {
                    let past = match st.stop {
                        Stop::GlyphPast(l) => cx + 8 > l,
                        _ => false,
                    };
                    if past {
                        stopped = true;
                        proof {
                            assert(crate::raster::paint_views(ops@) + Seq::<PaintView>::empty() =~= crate::raster::paint_views(ops@));
                        }
                    } else {
                        let cols: i64 = if st.eight_columns {
                            8
                        } else {
                            g.get_width() as i64
                        };
                        let adv: i64 = match st.advance {
                            Advance::Fixed | Advance::FontFixed => 8,
                            Advance::FontWidth | Advance::WidthOrFixed => g.get_width() as i64,
                        };
                        let ghost gv = g@;
                        let op = Paint::Glyph {
                            x0: max_i64(max_i64(st.clip.x0, cx), 0),
                            y0: max_i64(max_i64(st.clip.y0, cy), 0),
                            x1: min_i64(st.clip.x1, cx + cols),
                            y1: min_i64(st.clip.y1, cy + 16),
                            gx: cx,
                            gy: cy,
                            glyph: g,
                            pixel: st.pixel,
                        };
                        let ghost before = crate::raster::paint_views(ops@);
                        ops.push(op);
                        proof {
                            assert(crate::raster::paint_views(ops@) =~= before.push(glyph_op(cx as int, cy as int, gv, st)));
                            assert(before.push(glyph_op(cx as int, cy as int, gv, st)) + text_ops(cs.skip(i + 1), cx + adv, cy as int, x as int, st)
                                =~= before + (seq![glyph_op(cx as int, cy as int, gv, st)] + text_ops(cs.skip(i + 1), cx + adv, cy as int, x as int, st)));
                        }
                        cx = cx + adv;
                        i = i + 1;
                    }
                },
                None => {
                    let adv: i64 = match st.advance {
                        Advance::Fixed | Advance::WidthOrFixed => 8,
                        Advance::FontFixed | Advance::FontWidth => 0,
                    };
                    cx = cx + adv;
                    i = i + 1;
                },
            }
        }
    }
    proof {
        if !stopped {
            assert(cs.skip(i as int) =~= Seq::<char>::empty());
            assert(crate::raster::paint_views(ops@) + Seq::<PaintView>::empty() =~= crate::raster::paint_views(ops@));
        }
    }
}

/// The text stored under a key, when it is a text value.
pub open spec fn text_field(f: Map<u32, ValueView>, k: u32) -> Option<Seq<char>> {
    if f.contains_key(k) {
        match f[k] {
            ValueView::Text(t) => Some(t),
            _ => None,
        }
    } else {
        None
    }
}

/// The text stored under a key, when it is a text value.
pub fn text_prop(f: &SymbolMap, k: u32) -> (r: Option<String>)
    ensures
        match r {
            Some(s) => text_field(f@, k) == Some(s@),
            None => text_field(f@, k) is None,
        },
{
    match f.get(&Symbol(k)) {
        Some(v) => match v.as_text() {
            Some(t) => Some(String::from_str(t)),
            None => None,
        },
        None => None,
    }
}

/// The row width of the shared buffer the dashboard widgets draw into.
pub const SHARED_STRIDE: u32 = 1024;

/// A clip box that clips nothing.
pub open spec fn spec_no_clip() -> Clip {
    Clip { x0: (-NOCLIP) as i64, y0: (-NOCLIP) as i64, x1: NOCLIP, y1: NOCLIP }
}

/// A clip box that clips nothing.
pub fn no_clip() -> (c: Clip)
    ensures
        c == spec_no_clip(),
{
    Clip { x0: -NOCLIP, y0: -NOCLIP, x1: NOCLIP, y1: NOCLIP }
}

/// The clip box of a widget's rect.
pub open spec fn spec_rect_clip(rect: Rect) -> Clip {
    Clip {
        x0: rect.x as i64,
        y0: rect.y as i64,
        x1: (rect.x + rect.width) as i64,
        y1: (rect.y + rect.height) as i64,
    }
}

/// The clip box of a widget's rect.
pub fn rect_clip(rect: Rect) -> (c: Clip)
    ensures
        c == spec_rect_clip(rect),
{
    Clip { x0: rect.x as i64, y0: rect.y as i64, x1: rect.x as i64 + rect.width as i64, y1: rect.y as i64 + rect.height as i64 }
}

/// A style for single-line text in the shared buffer: no clipping, the
/// given glyph columns and advance, one pixel value.
pub open spec fn spec_line_style(eight_columns: bool, advance: Advance, pixel: Pixel) -> TextStyle {
    TextStyle { eight_columns, advance, multiline: false, stop: Stop::Never, clip: spec_no_clip(), pixel }
}

/// A style for single-line text in the shared buffer.
pub fn line_style(eight_columns: bool, advance: Advance, pixel: Pixel) -> (st: TextStyle)
    ensures
        st == spec_line_style(eight_columns, advance, pixel),
{
    TextStyle { eight_columns, advance, multiline: false, stop: Stop::Never, clip: no_clip(), pixel }
}

/// An empty list of operations.
pub fn no_ops() -> (ops: Vec<Paint>)
    ensures
        crate::raster::paint_views(ops@) == Seq::<PaintView>::empty(),
{
    let ops: Vec<Paint> = Vec::new();
    proof {
        assert(crate::raster::paint_views(ops@) =~= Seq::<PaintView>::empty());
    }
    ops
}

/// The props of a Thing as read, as values.
pub open spec fn props_view(props: Option<&SymbolMap>) -> Option<Map<u32, ValueView>> {
    match props {
        Some(p) => Some(p@),
        None => None,
    }
}

/// The text under `key` in props that could be read, when it is a text
/// value; else `held`.
pub open spec fn text_or(props: Option<Map<u32, ValueView>>, key: u32, held: Seq<char>) -> Seq<char> {
    match props {
        Some(p) => match text_field(p, key) {
            Some(t) => t,
            None => held,
        },
        None => held,
    }
}

/// The text under `key` in props that could be read, when it is a text
/// value; else `held`.
pub fn prop_text_or(props: Option<&SymbolMap>, key: u32, held: &str) -> (t: String)
    ensures
        t@ == text_or(props_view(props), key, held@),
{
    match props {
        Some(p) => match text_prop(p, key) {
            Some(t) => t,
            None => String::from_str(held),
        },
        None => String::from_str(held),
    }
}

/// The points a line steps through from `(x, y)` to `(x1, y1)`, Bresenham's
/// way: with `dx` and `dy` the line's width and (negated) height, `sx` and
/// `sy` its directions and `err` the error term, each step moves along x
/// when twice the error is at least `dy` and along y when it is at most
/// `dx`. (Each step brings the point closer to the end for a line begun by
/// `line_points`; the last branch only makes the definition total.)
pub open spec fn line_from(x: int, y: int, x1: int, y1: int, dx: int, dy: int, sx: int, sy: int, err: int) -> Seq<(int, int)>
    decreases abs(x1 - x) + abs(y1 - y),
{
    if x == x1 && y == y1 {
        seq![(x, y)]
    } else {
        let e2 = 2 * err;
        let nx = if e2 >= dy {
            x + sx
        } else {
            x
        };
        let err1 = if e2 >= dy {
            err + dy
        } else {
            err
        };
        let ny = if e2 <= dx {
            y + sy
        } else {
            y
        };
        let err2 = if e2 <= dx {
            err1 + dx
        } else {
            err1
        };
        if abs(x1 - nx) + abs(y1 - ny) < abs(x1 - x) + abs(y1 - y) {
            seq![(x, y)] + line_from(nx, ny, x1, y1, dx, dy, sx, sy, err2)
        } else {
            seq![(x, y)]
        }
    }
}

/// The direction from `a` toward `b`: 1, or -1 when `b` is not greater.
pub open spec fn dir(a: int, b: int) -> int {
    if a < b {
        1
    } else {
        -1
    }
}

/// The points of the line from `(x0, y0)` to `(x1, y1)`, both ends included.
pub open spec fn line_points(x0: int, y0: int, x1: int, y1: int) -> Seq<(int, int)> {
    line_from(x0, y0, x1, y1, abs(x1 - x0) as int, -abs(y1 - y0), dir(x0, x1), dir(y0, y1), abs(x1 - x0) - abs(y1 - y0))
}

/// One-pixel fills at the points that lie at or right of column 0 and at or
/// below row 0.
pub open spec fn point_ops(pts: Seq<(int, int)>, pixel: Pixel) -> Seq<PaintView>
    decreases pts.len(),
{
    if pts.len() == 0 {
        Seq::empty()
    } else {
        let (x, y) = pts[0];
        let rest = point_ops(pts.drop_first(), pixel);
        if x >= 0 && y >= 0 {
            seq![PaintView::Fill { x0: x, y0: y, x1: x + 1, y1: y + 1, pixel }] + rest
        } else {
            rest
        }
    }
}

proof fn lemma_point_ops_wf(pts: Seq<(int, int)>, pixel: Pixel, stride: int)
    requires
        stride >= 1,
    ensures
        ops_wf(point_ops(pts, pixel), stride),
    decreases pts.len(),
{
    if pts.len() > 0 {
        lemma_point_ops_wf(pts.drop_first(), pixel, stride);
        let (x, y) = pts[0];
        let rest = point_ops(pts.drop_first(), pixel);
        let all = point_ops(pts, pixel);
        if x >= 0 && y >= 0 {
            assert forall|k: int| 0 <= k < all.len() implies crate::raster::paint_wf(#[trigger] all[k], stride) by {
                if k > 0 {
                    assert(all[k] == rest[k - 1]);
                }
            }
        }
    }
}

/// The one-pixel fills of a line fit any buffer.
pub proof fn lemma_line_wf(x0: int, y0: int, x1: int, y1: int, pixel: Pixel, stride: int)
    requires
        stride >= 1,
    ensures
        ops_wf(point_ops(line_points(x0, y0, x1, y1), pixel), stride),
{
    lemma_point_ops_wf(line_points(x0, y0, x1, y1), pixel, stride);
}

fn abs_i64(v: i64) -> (r: i64)
    requires
        v > i64::MIN,
    ensures
        r == abs(v as int),
{
    if v < 0 {
        -v
    } else {
        v
    }
}

/// Append one-pixel fills along the line from `(x0, y0)` to `(x1, y1)`.
pub fn push_line(ops: &mut Vec<Paint>, x0: i64, y0: i64, x1: i64, y1: i64, pixel: Pixel)
    requires
        -NOCLIP <= x0 <= NOCLIP,
        -NOCLIP <= y0 <= NOCLIP,
        -NOCLIP <= x1 <= NOCLIP,
        -NOCLIP <= y1 <= NOCLIP,
    ensures
        crate::raster::paint_views(final(ops)@) == crate::raster::paint_views(old(ops)@) + point_ops(
            line_points(x0 as int, y0 as int, x1 as int, y1 as int),
            pixel,
        ),
{
    let ghost start = crate::raster::paint_views(old(ops)@);
    let dx = abs_i64(x1 - x0);
    let dy = -abs_i64(y1 - y0);
    let sx: i64 = if x0 < x1 {
        1
    } else {
        -1
    };
    let sy: i64 = if y0 < y1 {
        1
    } else {
        -1
    };
    let mut err = dx + dy;
    let mut x = x0;
    let mut y = y0;
    let mut done = false;
    let ghost full = start + point_ops(line_points(x0 as int, y0 as int, x1 as int, y1 as int), pixel);
    proof {
        assert(abs(x1 - x) * (-dy) - abs(y1 - y) * dx == 0) by (nonlinear_arith)
            requires
                abs(x1 - x) == dx,
                abs(y1 - y) == -dy,
        ;
    }
    while !done
        invariant
            -NOCLIP <= x0 <= NOCLIP,
            -NOCLIP <= y0 <= NOCLIP,
            -NOCLIP <= x1 <= NOCLIP,
            -NOCLIP <= y1 <= NOCLIP,
            dx == abs(x1 - x0),
            dy == -abs(y1 - y0),
            sx == dir(x0 as int, x1 as int),
            sy == dir(y0 as int, y1 as int),
            0 <= abs(x1 - x) <= dx,
            0 <= abs(y1 - y) <= -dy,
            x1 - x == sx * abs(x1 - x),
            y1 - y == sy * abs(y1 - y),
            err == abs(x1 - x) * (-dy) - abs(y1 - y) * dx + dx + dy,
            2 * dy <= err <= 2 * dx,
            full == crate::raster::paint_views(ops@) + (if done {
                Seq::empty()
            } else {
                point_ops(line_from(x as int, y as int, x1 as int, y1 as int, dx as int, dy as int, sx as int, sy as int, err as int), pixel)
            }),
        decreases abs(x1 - x) + abs(y1 - y) + (if done { 0int } else { 1int }),
    {
        let ghost before = crate::raster::paint_views(ops@);
        let ghost here = line_from(x as int, y as int, x1 as int, y1 as int, dx as int, dy as int, sx as int, sy as int, err as int);
        if x >= 0 && y >= 0 {
            ops.push(Paint::Fill { x0: x, y0: y, x1: x + 1, y1: y + 1, pixel });
        }
        if x == x1 && y == y1 {
            done = true;
            proof {
                assert(here == seq![(x as int, y as int)]);
                assert(here.drop_first() =~= Seq::<(int, int)>::empty());
                assert(point_ops(here.drop_first(), pixel) =~= Seq::<PaintView>::empty());
                assert(crate::raster::paint_views(ops@) =~= before + point_ops(here, pixel));
            }
        } else {
            let ghost a = abs(x1 - x);
            let ghost b = abs(y1 - y);
            let e2 = 2 * err;
            proof {
                assert(e2 == 2 * (a * (-dy) - b * dx + dx + dy));
                if a == 0 {
                    assert(b >= 1);
                    assert(a * (-dy) == 0) by (nonlinear_arith)
                        requires
                            a == 0,
                    ;
                    assert(b * dx >= dx) by (nonlinear_arith)
                        requires
                            b >= 1,
                            dx >= 0,
                    ;
                    assert(e2 < dy);
                }
                if b == 0 {
                    assert(a >= 1);
                    assert(dx >= 1);
                    assert(b * dx == 0) by (nonlinear_arith)
                        requires
                            b == 0,
                    ;
                    assert(a * (-dy) >= -dy) by (nonlinear_arith)
                        requires
                            a >= 1,
                            -dy >= 0,
                    ;
                    assert(e2 > dx);
                }
                assert(a * (-dy) <= dx * (-dy)) by (nonlinear_arith)
                    requires
                        a <= dx,
                        -dy >= 0,
                ;
                assert(b * dx <= (-dy) * dx) by (nonlinear_arith)
                    requires
                        b <= -dy,
                        dx >= 0,
                ;
            }
            if e2 >= dy {
                err = err + dy;
                x = x + sx;
            }
            if e2 <= dx {
                err = err + dx;
                y = y + sy;
            }
            proof {
                assert(abs(x1 - x) + abs(y1 - y) < a + b);
                assert(here == seq![(x as int - (if e2 >= dy { sx as int } else { 0int }), y as int - (if e2 <= dx { sy as int } else { 0int }))] + line_from(
                    x as int,
                    y as int,
                    x1 as int,
                    y1 as int,
                    dx as int,
                    dy as int,
                    sx as int,
                    sy as int,
                    err as int,
                ));
                let tail = line_from(x as int, y as int, x1 as int, y1 as int, dx as int, dy as int, sx as int, sy as int, err as int);
                assert(here.drop_first() =~= tail);
                assert(crate::raster::paint_views(ops@) + point_ops(tail, pixel) =~= before + point_ops(here, pixel));
                assert(err == abs(x1 - x) * (-dy) - abs(y1 - y) * dx + dx + dy) by (nonlinear_arith)
                    requires
                        err == (if e2 <= dx { dx } else { 0 }) + (if e2 >= dy { dy } else { 0 }) + (a * (-dy) - b * dx + dx + dy),
                        abs(x1 - x) == (if e2 >= dy { a - 1 } else { a as int }),
                        abs(y1 - y) == (if e2 <= dx { b - 1 } else { b as int }),
                ;
            }
        }
    }
    proof {
        assert(crate::raster::paint_views(ops@) + Seq::<PaintView>::empty() =~= crate::raster::paint_views(ops@));
    }
}

/// The box `x0..x1` by `y0..y1` cut to a clip box (and at column and row 0),
/// as fills at most `stride` wide.
pub open spec fn fill_clipped(x0: int, y0: int, x1: int, y1: int, clip: Clip, stride: int, pixel: Pixel) -> Seq<PaintView> {
    fill_box(max(x0, clip.x0 as int), max(y0, clip.y0 as int), min(x1, clip.x1 as int), min(y1, clip.y1 as int), stride, pixel)
}

/// Append the fills of a box cut to a clip box.
pub fn push_fill_clipped(ops: &mut Vec<Paint>, x0: i64, y0: i64, x1: i64, y1: i64, clip: Clip, stride: u32, pixel: Pixel)
    requires
        -NOCLIP <= x0 <= NOCLIP,
        -NOCLIP <= y0 <= NOCLIP,
        -NOCLIP <= x1 <= NOCLIP,
        -NOCLIP <= y1 <= NOCLIP,
        -NOCLIP <= clip.x0 <= NOCLIP,
        -NOCLIP <= clip.y0 <= NOCLIP,
        -NOCLIP <= clip.x1 <= NOCLIP,
        -NOCLIP <= clip.y1 <= NOCLIP,
    ensures
        crate::raster::paint_views(final(ops)@) == crate::raster::paint_views(old(ops)@) + fill_clipped(
            x0 as int,
            y0 as int,
            x1 as int,
            y1 as int,
            clip,
            stride as int,
            pixel,
        ),
{
    push_fill_box(ops, max_i64(x0, clip.x0), max_i64(y0, clip.y0), min_i64(x1, clip.x1), min_i64(y1, clip.y1), stride, pixel);
}

/// Every list a drawing is made of fits its buffer.
pub proof fn lemma_clipped_wf(stride: int)
    ensures
        forall|x0: int, y0: int, x1: int, y1: int, c: Clip, p: Pixel| ops_wf(#[trigger] fill_clipped(x0, y0, x1, y1, c, stride, p), stride),
{
    lemma_draw_wf(stride);
}

} // verus!
