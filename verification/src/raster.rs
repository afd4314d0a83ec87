//! Drawing into a widget's pixel buffer: four bytes per pixel, rows of
//! `stride` pixels. What a widget draws is a list of paint operations: a box
//! filled with one pixel value, or the set pixels of a font glyph inside a
//! box. `paint` applies one operation, `paint_all` a list, pixel by pixel;
//! a pixel whose four bytes do not all fit in the buffer is left alone.

use vstd::prelude::*;
use vstd::arithmetic::div_mod::{lemma_fundamental_div_mod, lemma_fundamental_div_mod_converse, lemma_mod_bound};
use vstd::arithmetic::mul::lemma_mul_is_commutative;

verus! {

/// Where a widget draws: its origin and size. The buffer it draws into has
/// `width` pixels per row.
#[derive(Clone, Copy, Debug, PartialEq, Eq, Structural)]
pub struct Rect {
    pub x: i32,
    pub y: i32,
    pub width: u32,
    pub height: u32,
}

/// The four bytes of a pixel, in buffer order.
#[derive(Clone, Copy, Debug, PartialEq, Eq, Structural)]
pub struct Pixel(pub u8, pub u8, pub u8, pub u8);

/// Byte `j` (0 to 3) of a pixel.
pub open spec fn pixel_byte(p: Pixel, j: int) -> u8 {
    if j == 0 {
        p.0
    } else if j == 1 {
        p.1
    } else if j == 2 {
        p.2
    } else {
        p.3
    }
}

/// The pixel a `0xAARRGGBB` colour writes: red, green, blue, alpha.
pub open spec fn spec_argb(c: u32) -> Pixel {
    Pixel((c >> 16) as u8, (c >> 8) as u8, c as u8, (c >> 24) as u8)
}

/// The pixel a `0xAARRGGBB` colour writes.
pub fn argb(c: u32) -> (p: Pixel)
    ensures
        p == spec_argb(c),
{
    Pixel((c >> 16) as u8, (c >> 8) as u8, c as u8, (c >> 24) as u8)
}

/// A glyph of the bitmap font: 16 rows of 8 pixels (or 16 when full
/// width), the leftmost pixel in each row's top bit.
pub struct Glyph {
    pub fullwidth: bool,
    pub rows: Vec<u16>,
}

/// What a glyph holds.
pub struct GlyphView {
    pub fullwidth: bool,
    pub rows: Seq<u16>,
}

impl View for Glyph {
    type V = GlyphView;

    open spec fn view(&self) -> GlyphView {
        GlyphView { fullwidth: self.fullwidth, rows: self.rows@ }
    }
}

/// The width of a glyph in pixels.
pub open spec fn glyph_width(g: GlyphView) -> int {
    if g.fullwidth {
        16
    } else {
        8
    }
}

/// Whether the glyph's pixel at column `x`, row `y` is set.
pub open spec fn glyph_pixel(g: GlyphView, x: int, y: int) -> bool {
    &&& 0 <= y < 16
    &&& y < g.rows.len()
    &&& 0 <= x < glyph_width(g)
    &&& if g.fullwidth {
        g.rows[y] & (0x8000u16 >> (x as u16)) != 0
    } else {
        g.rows[y] & (0x80u16 >> (x as u16)) != 0
    }
}

impl Glyph {
    /// The width in pixels: 8, or 16 when full width.
    pub fn get_width(&self) -> (w: usize)
        ensures
            w == glyph_width(self@),
    {
        if self.fullwidth {
            16
        } else {
            8
        }
    }

    /// Whether the pixel at column `x`, row `y` is set.
    pub fn get_pixel(&self, x: usize, y: usize) -> (r: bool)
        ensures
            r == glyph_pixel(self@, x as int, y as int),
    {
        if y < 16 && y < self.rows.len() {
            if self.fullwidth {
                x < 16 && self.rows[y] & (0x8000u16 >> (x as u16)) != 0
            } else {
                x < 8 && self.rows[y] & (0x80u16 >> (x as u16)) != 0
            }
        } else {
            false
        }
    }

    /// A copy.
    pub fn copy(&self) -> (g: Glyph)
        ensures
            g@ == self@,
    {
        let mut rows: Vec<u16> = Vec::new();
        let mut i: usize = 0;
        while i < self.rows.len()
            invariant
                i <= self.rows@.len(),
                rows@ == self.rows@.take(i as int),
            decreases self.rows@.len() - i,
        {
            rows.push(self.rows[i]);
            proof {
                assert(self.rows@.take(i + 1) =~= self.rows@.take(i as int).push(self.rows@[i as int]));
            }
            i = i + 1;
        }
        proof {
            assert(self.rows@.take(i as int) =~= self.rows@);
        }
        Glyph { fullwidth: self.fullwidth, rows }
    }
}

/// What the font holds for a character: whether its glyph is full width, and
/// its rows.
pub uninterp spec fn spec_font_glyph(c: char) -> Option<(bool, Seq<u16>)>;

/// The glyph of a character, as a value.
pub open spec fn spec_glyph(c: char) -> Option<GlyphView> {
    match spec_font_glyph(c) {
        Some((fullwidth, rows)) => Some(GlyphView { fullwidth, rows }),
        None => None,
    }
}

/// The font's glyph for a character (`unifont::get_glyph`), its rows copied.
/// Trusted: the result is what the font holds for `c` (named, not stated:
/// the font's tables are data), and a glyph has 16 rows, as `unifont`'s
/// `Glyph` variants (`[u8; 16]`, `[u16; 16]`) show.
#[verifier::external_body]
fn font_glyph(c: char) -> (g: Option<Glyph>)
    ensures
        g matches Some(x) ==> spec_font_glyph(c) == Some((x.fullwidth, x.rows@)) && x.rows@.len() == 16,
        g is None ==> spec_font_glyph(c) is None,
{
    match unifont::get_glyph(c) {
        Some(unifont::Glyph::Halfwidth(rows)) => Some(Glyph { fullwidth: false, rows: rows.iter().map(|r| *r as u16).collect() }),
        Some(unifont::Glyph::Fullwidth(rows)) => Some(Glyph { fullwidth: true, rows: rows.to_vec() }),
        None => None,
    }
}

/// The font's glyph for a character, if it has one.
pub fn get_glyph(c: char) -> (g: Option<Glyph>)
    ensures
        match g {
            Some(x) => spec_glyph(c) == Some(x@) && x@.rows.len() == 16,
            None => spec_glyph(c) is None,
        },
{
    font_glyph(c)
}

/// How far text advances after a character: its glyph's width, or `fallback`
/// when the font has none.
pub open spec fn advance(c: char, fallback: int) -> int {
    match spec_glyph(c) {
        Some(g) => glyph_width(g),
        None => fallback,
    }
}

/// The width of a text: the sum of its characters' advances.
pub open spec fn text_width(s: Seq<char>, fallback: int) -> int
    decreases s.len(),
{
    if s.len() == 0 {
        0
    } else {
        text_width(s.drop_last(), fallback) + advance(s.last(), fallback)
    }
}

/// How far text advances after a character.
pub fn char_advance(c: char, fallback: i64) -> (a: i64)
    ensures
        a == advance(c, fallback as int),
{
    match get_glyph(c) {
        Some(g) => g.get_width() as i64,
        None => fallback,
    }
}

/// The width of a text (as the font lays it out, `fallback` for characters
/// it lacks).
pub fn measure_text_width(text: &str, fallback: i64) -> (w: i64)
    requires
        0 <= fallback <= 16,
        text@.len() < 0x1000_0000,
    ensures
        w == text_width(text@, fallback as int),
{
    let mut w: i64 = 0;
    let mut i: usize = 0;
    let n = text.unicode_len();
    proof {
        lemma_text_width_bounds(text@, fallback as int);
    }
    while i < n
        invariant
            n == text@.len(),
            i <= n,
            0 <= fallback <= 16,
            n < 0x1000_0000,
            w == text_width(text@.take(i as int), fallback as int),
            0 <= w <= 16 * i,
        decreases n - i,
    {
        let c = text.get_char(i);
        proof {
            assert(text@.take(i + 1).drop_last() =~= text@.take(i as int));
            lemma_advance_bounds(c, fallback as int);
        }
        w = w + char_advance(c, fallback);
        i = i + 1;
    }
    proof {
        assert(text@.take(i as int) =~= text@);
    }
    w
}

proof fn lemma_advance_bounds(c: char, fallback: int)
    requires
        0 <= fallback <= 16,
    ensures
        0 <= advance(c, fallback) <= 16,
{
}

pub proof fn lemma_text_width_bounds(s: Seq<char>, fallback: int)
    requires
        0 <= fallback <= 16,
    ensures
        0 <= text_width(s, fallback) <= 16 * s.len(),
    decreases s.len(),
{
    if s.len() > 0 {
        lemma_text_width_bounds(s.drop_last(), fallback);
        lemma_advance_bounds(s.last(), fallback);
    }
}

/// The column of buffer slot `slot` among the `stride` columns starting at `x0`.
pub open spec fn box_x(slot: int, stride: int, x0: int) -> int {
    x0 + (slot - x0) % stride
}

/// The row of buffer slot `slot`, counting columns from `x0`.
pub open spec fn box_y(slot: int, stride: int, x0: int) -> int {
    (slot - x0) / stride
}

/// Whether buffer slot `slot` is a pixel of the box of columns `x0..x1` and
/// rows `y0..y1` (the box is at most `stride` wide, so each slot is at most
/// one of its pixels).
pub open spec fn in_box(slot: int, stride: int, x0: int, y0: int, x1: int, y1: int) -> bool {
    &&& stride > 0
    &&& box_x(slot, stride, x0) < x1
    &&& y0 <= box_y(slot, stride, x0) < y1
}

/// A paint operation, as values.
pub enum PaintView {
    Bytes { at: int, bytes: Seq<u8> },
    Clear { pixel: Pixel },
    Fill { x0: int, y0: int, x1: int, y1: int, pixel: Pixel },
    Glyph { x0: int, y0: int, x1: int, y1: int, gx: int, gy: int, glyph: GlyphView, pixel: Pixel },
    Mix { x: int, y: int, src: Pixel },
}

/// A paint operation: copy bytes into the buffer from byte `at` (when they
/// all fit), fill the whole buffer with a pixel, fill the box of columns
/// `x0..x1` and rows `y0..y1` with one, set the pixels of a glyph placed
/// at `gx`, `gy` that fall in the box, or blend one source pixel (its
/// colour bytes weighted by its alpha byte) over the pixel at column `x`,
/// row `y`, making it opaque.
pub enum Paint {
    Bytes { at: u128, bytes: Vec<u8> },
    Clear { pixel: Pixel },
    Fill { x0: i64, y0: i64, x1: i64, y1: i64, pixel: Pixel },
    Glyph { x0: i64, y0: i64, x1: i64, y1: i64, gx: i64, gy: i64, glyph: Glyph, pixel: Pixel },
    Mix { x: i64, y: i64, src: Pixel },
}

impl View for Paint {
    type V = PaintView;

    open spec fn view(&self) -> PaintView {
        match self {
            Paint::Bytes { at, bytes } => PaintView::Bytes { at: *at as int, bytes: bytes@ },
            Paint::Clear { pixel } => PaintView::Clear { pixel: *pixel },
            Paint::Fill { x0, y0, x1, y1, pixel } => PaintView::Fill {
                x0: *x0 as int,
                y0: *y0 as int,
                x1: *x1 as int,
                y1: *y1 as int,
                pixel: *pixel,
            },
            Paint::Glyph { x0, y0, x1, y1, gx, gy, glyph, pixel } => PaintView::Glyph {
                x0: *x0 as int,
                y0: *y0 as int,
                x1: *x1 as int,
                y1: *y1 as int,
                gx: *gx as int,
                gy: *gy as int,
                glyph: glyph@,
                pixel: *pixel,
            },
            Paint::Mix { x, y, src } => PaintView::Mix { x: *x as int, y: *y as int, src: *src },
        }
    }
}

/// A colour byte blended over an old one: `src` weighted by the alpha `a`,
/// the old byte by `255 - a`, divided by 255.
pub open spec fn mix_channel(src: u8, a: u8, old: u8) -> u8 {
    ((src as int * a as int + old as int * (255 - a as int)) / 255) as u8
}

/// Byte `j` of a pixel after a source pixel is blended over it: the three
/// colour bytes mixed, the fourth opaque.
pub open spec fn mix_byte(src: Pixel, j: int, old: u8) -> u8 {
    if j == 0 {
        mix_channel(src.0, src.3, old)
    } else if j == 1 {
        mix_channel(src.1, src.3, old)
    } else if j == 2 {
        mix_channel(src.2, src.3, old)
    } else {
        255
    }
}

/// The pixel an operation writes.
pub open spec fn paint_pixel(op: PaintView) -> Pixel {
    match op {
        PaintView::Bytes { .. } => Pixel(0, 0, 0, 0),
        PaintView::Clear { pixel } => pixel,
        PaintView::Fill { pixel, .. } => pixel,
        PaintView::Glyph { pixel, .. } => pixel,
        PaintView::Mix { src, .. } => src,
    }
}

/// An operation that can be applied: its box starts at or right of column 0
/// and row 0 and is at most `stride` wide.
pub open spec fn paint_wf(op: PaintView, stride: int) -> bool {
    match op {
        PaintView::Bytes { .. } => true,
        PaintView::Clear { .. } => true,
        PaintView::Fill { x0, y0, x1, .. } => 0 <= x0 && 0 <= y0 && x1 - x0 <= stride,
        PaintView::Glyph { x0, y0, x1, .. } => 0 <= x0 && 0 <= y0 && x1 - x0 <= stride,
        PaintView::Mix { x, y, .. } => 0 <= x && 0 <= y,
    }
}

/// Whether an operation writes buffer slot `slot`.
pub open spec fn covers(op: PaintView, stride: int, slot: int) -> bool {
    match op {
        PaintView::Bytes { .. } => false,
        PaintView::Clear { .. } => true,
        PaintView::Fill { x0, y0, x1, y1, .. } => in_box(slot, stride, x0, y0, x1, y1),
        PaintView::Glyph { x0, y0, x1, y1, gx, gy, glyph, .. } => in_box(slot, stride, x0, y0, x1, y1)
            && glyph_pixel(glyph, box_x(slot, stride, x0) - gx, box_y(slot, stride, x0) - gy),
        PaintView::Mix { x, y, .. } => slot == y * stride + x,
    }
}

/// The buffer after an operation: copied bytes in place when they all fit;
/// else each whole pixel the operation covers holds its pixel value; every
/// other byte is as it was.
pub open spec fn apply(fb: Seq<u8>, stride: int, op: PaintView) -> Seq<u8> {
    match op {
        PaintView::Bytes { at, bytes } => Seq::new(
            fb.len(),
            |i: int|
                if at <= i < at + bytes.len() && at + bytes.len() <= fb.len() {
                    bytes[i - at]
                } else {
                    fb[i]
                },
        ),
        PaintView::Mix { src, .. } => Seq::new(
            fb.len(),
            |i: int|
                if i / 4 < fb.len() / 4 && covers(op, stride, i / 4) {
                    mix_byte(src, i % 4, fb[i])
                } else {
                    fb[i]
                },
        ),
        _ => Seq::new(
            fb.len(),
            |i: int|
                if i / 4 < fb.len() / 4 && covers(op, stride, i / 4) {
                    pixel_byte(paint_pixel(op), i % 4)
                } else {
                    fb[i]
                },
        ),
    }
}

/// The buffer after a list of operations, in order.
pub open spec fn render(fb: Seq<u8>, stride: int, ops: Seq<PaintView>) -> Seq<u8>
    decreases ops.len(),
{
    if ops.len() == 0 {
        fb
    } else {
        apply(render(fb, stride, ops.drop_last()), stride, ops.last())
    }
}

/// The operations of a list, as values.
pub open spec fn paint_views(ops: Seq<Paint>) -> Seq<PaintView> {
    ops.map_values(|p: Paint| p@)
}

proof fn lemma_box_of(py: int, px: int, stride: int, x0: int)
    requires
        stride > 0,
        0 <= px - x0 < stride,
    ensures
        box_x(py * stride + px, stride, x0) == px,
        box_y(py * stride + px, stride, x0) == py,
{
    lemma_fundamental_div_mod_converse(py * stride + px - x0, stride, py, px - x0);
}

proof fn lemma_box_parts(t: int, stride: int, x0: int)
    requires
        stride > 0,
    ensures
        t == box_y(t, stride, x0) * stride + box_x(t, stride, x0),
        x0 <= box_x(t, stride, x0) < x0 + stride,
{
    lemma_fundamental_div_mod(t - x0, stride);
    lemma_mod_bound(t - x0, stride);
    lemma_mul_is_commutative(stride, (t - x0) / stride);
}

/// The buffer slot of the pixel at column `px`, row `py`.
fn slot_of(py: i64, px: i64, stride: u32) -> (slot: u128)
    requires
        0 <= py,
        0 <= px,
    ensures
        slot == py * stride + px,
{
    let a: u128 = py as u128;
    let b: u128 = stride as u128;
    assert(a * b < 0x1_0000_0000_0000_0000_0000_0000) by (nonlinear_arith)
        requires
            a < 0x8000_0000_0000_0000,
            b < 0x1_0000_0000,
    ;
    a * b + (px as u128)
}

/// Write one pixel at buffer slot `slot`, when it fits.
fn put(fb: &mut [u8], slot: u128, p: Pixel)
    ensures
        final(fb)@.len() == old(fb)@.len(),
        forall|i: int|
            0 <= i < old(fb)@.len() ==> #[trigger] final(fb)@[i] == (if i / 4 < old(fb)@.len() / 4 && i / 4 == slot {
                pixel_byte(p, i % 4)
            } else {
                old(fb)@[i]
            }),
{
    let n = fb.len();
    if slot < (n / 4) as u128 {
        let o = (slot * 4) as usize;
        fb[o] = p.0;
        fb[o + 1] = p.1;
        fb[o + 2] = p.2;
        fb[o + 3] = p.3;
    }
}

/// Copy bytes into the buffer from byte `at`, when they all fit.
fn copy_bytes(fb: &mut [u8], at: u128, bytes: &Vec<u8>)
    ensures
        final(fb)@ == apply(old(fb)@, 0, PaintView::Bytes { at: at as int, bytes: bytes@ }),
{
    let ghost fb0 = fb@;
    let n = fb.len();
    if at > n as u128 || (bytes.len() as u128) > (n as u128) - at {
        proof {
            assert(fb@ =~= apply(fb0, 0, PaintView::Bytes { at: at as int, bytes: bytes@ }));
        }
        return;
    }
    let start = at as usize;
    let mut k: usize = 0;
    while k < bytes.len()
        invariant
            start == at,
            start + bytes@.len() <= fb0.len(),
            n == fb0.len(),
            k <= bytes@.len(),
            fb@.len() == fb0.len(),
            forall|i: int|
                0 <= i < fb0.len() ==> #[trigger] fb@[i] == (if start <= i < start + k {
                    bytes@[i - start]
                } else {
                    fb0[i]
                }),
        decreases bytes@.len() - k,
    {
        fb[start + k] = bytes[k];
        k = k + 1;
    }
    proof {
        assert(fb@ =~= apply(fb0, 0, PaintView::Bytes { at: at as int, bytes: bytes@ }));
    }
}

/// Fill every whole pixel of the buffer.
fn clear(fb: &mut [u8], p: Pixel)
    ensures
        final(fb)@ == apply(old(fb)@, 0, PaintView::Clear { pixel: p }),
{
    let ghost fb0 = fb@;
    let n = fb.len() / 4;
    let mut k: usize = 0;
    while k < n
        invariant
            n == fb0.len() / 4,
            k <= n,
            fb@.len() == fb0.len(),
            forall|i: int|
                0 <= i < fb0.len() ==> #[trigger] fb@[i] == (if i / 4 < k {
                    pixel_byte(p, i % 4)
                } else {
                    fb0[i]
                }),
        decreases n - k,
    {
        put(fb, k as u128, p);
        k = k + 1;
    }
    proof {
        assert(fb@ =~= apply(fb0, 0, PaintView::Clear { pixel: p }));
    }
}

/// Fill a box with a pixel.
fn fill(fb: &mut [u8], stride: u32, x0: i64, y0: i64, x1: i64, y1: i64, p: Pixel)
    requires
        0 <= x0,
        0 <= y0,
        x1 - x0 <= stride,
    ensures
        final(fb)@ == apply(old(fb)@, stride as int, PaintView::Fill { x0: x0 as int, y0: y0 as int, x1: x1 as int, y1: y1 as int, pixel: p }),
{
    let ghost fb0 = fb@;
    let ghost op = PaintView::Fill { x0: x0 as int, y0: y0 as int, x1: x1 as int, y1: y1 as int, pixel: p };
    let ghost s = stride as int;
    if stride == 0 || x1 <= x0 || y1 <= y0 {
        proof {
            assert forall|i: int| 0 <= i < fb0.len() implies !(#[trigger] covers(op, s, i / 4)) by {
                if s > 0 {
                    lemma_box_parts(i / 4, s, x0 as int);
                }
            }
            assert(apply(fb0, s, op) =~= fb0);
        }
        return;
    }
    let mut py: i64 = y0;
    while py < y1
        invariant
            0 <= x0 < x1,
            0 <= y0,
            x1 - x0 <= stride,
            stride > 0,
            s == stride as int,
            y0 <= py <= y1,
            fb@.len() == fb0.len(),
            forall|i: int|
                0 <= i < fb0.len() ==> #[trigger] fb@[i] == (if i / 4 < fb0.len() / 4 && in_box(i / 4, s, x0 as int, y0 as int, x1 as int, py as int) {
                    pixel_byte(p, i % 4)
                } else {
                    fb0[i]
                }),
        decreases y1 - py,
    {
        let mut px: i64 = x0;
        while px < x1
            invariant
                0 <= x0 <= px <= x1,
                0 <= y0,
                x1 - x0 <= stride,
                stride > 0,
                s == stride as int,
                y0 <= py < y1,
                fb@.len() == fb0.len(),
                forall|i: int|
                    0 <= i < fb0.len() ==> #[trigger] fb@[i] == (if i / 4 < fb0.len() / 4 && (in_box(i / 4, s, x0 as int, y0 as int, x1 as int, py as int)
                        || in_box(i / 4, s, x0 as int, py as int, px as int, py + 1)) {
                        pixel_byte(p, i % 4)
                    } else {
                        fb0[i]
                    }),
            decreases x1 - px,
        {
            let slot = slot_of(py, px, stride);
            let ghost before = fb@;
            put(fb, slot, p);
            proof {
                lemma_box_of(py as int, px as int, s, x0 as int);
                assert forall|i: int| 0 <= i < fb0.len() implies #[trigger] fb@[i] == (if i / 4 < fb0.len() / 4 && (in_box(i / 4, s, x0 as int, y0 as int, x1 as int, py as int)
                    || in_box(i / 4, s, x0 as int, py as int, px + 1, py + 1)) {
                    pixel_byte(p, i % 4)
                } else {
                    fb0[i]
                }) by {
                    let t = i / 4;
                    lemma_box_parts(t, s, x0 as int);
                    if box_x(t, s, x0 as int) == px && box_y(t, s, x0 as int) == py {
                        assert(t == slot);
                    }
                    assert(before[i] == fb@[i] || t == slot);
                }
            }
            px = px + 1;
        }
        proof {
            assert forall|i: int| 0 <= i < fb0.len() implies #[trigger] fb@[i] == (if i / 4 < fb0.len() / 4 && in_box(i / 4, s, x0 as int, y0 as int, x1 as int, py + 1) {
                pixel_byte(p, i % 4)
            } else {
                fb0[i]
            }) by {}
        }
        py = py + 1;
    }
    proof {
        assert(fb@ =~= apply(fb0, s, op));
    }
}

/// Whether slot `t` is a pixel of the glyph op that the scan has reached by
/// glyph row `row`, column `col`.
spec fn glyph_done(t: int, s: int, x0: int, y0: int, x1: int, y1: int, gx: int, gy: int, g: GlyphView, row: int, col: int) -> bool {
    &&& in_box(t, s, x0, y0, x1, y1)
    &&& glyph_pixel(g, box_x(t, s, x0) - gx, box_y(t, s, x0) - gy)
    &&& (box_y(t, s, x0) - gy < row || (box_y(t, s, x0) - gy == row && box_x(t, s, x0) - gx < col))
}

/// Set the pixels of a glyph placed at `gx`, `gy` that fall in a box.
fn glyph(fb: &mut [u8], stride: u32, x0: i64, y0: i64, x1: i64, y1: i64, gx: i64, gy: i64, g: &Glyph, p: Pixel)
    requires
        0 <= x0,
        0 <= y0,
        x1 - x0 <= stride,
    ensures
        final(fb)@ == apply(
            old(fb)@,
            stride as int,
            PaintView::Glyph {
                x0: x0 as int,
                y0: y0 as int,
                x1: x1 as int,
                y1: y1 as int,
                gx: gx as int,
                gy: gy as int,
                glyph: g@,
                pixel: p,
            },
        ),
{
    let ghost fb0 = fb@;
    let ghost op = PaintView::Glyph {
        x0: x0 as int,
        y0: y0 as int,
        x1: x1 as int,
        y1: y1 as int,
        gx: gx as int,
        gy: gy as int,
        glyph: g@,
        pixel: p,
    };
    let ghost s = stride as int;
    if stride == 0 {
        proof {
            assert(apply(fb0, s, op) =~= fb0);
        }
        return;
    }
    let w = g.get_width();
    let mut row: usize = 0;
    while row < 16
        invariant
            0 <= x0,
            0 <= y0,
            x1 - x0 <= stride,
            stride > 0,
            s == stride as int,
            w == glyph_width(g@),
            row <= 16,
            fb@.len() == fb0.len(),
            forall|i: int|
                0 <= i < fb0.len() ==> #[trigger] fb@[i] == (if i / 4 < fb0.len() / 4 && glyph_done(i / 4, s, x0 as int, y0 as int, x1 as int, y1 as int, gx as int, gy as int, g@, row as int, 0) {
                    pixel_byte(p, i % 4)
                } else {
                    fb0[i]
                }),
        decreases 16 - row,
    {
        let mut col: usize = 0;
        while col < w
            invariant
                0 <= x0,
                0 <= y0,
                x1 - x0 <= stride,
                stride > 0,
                s == stride as int,
                w == glyph_width(g@),
                row < 16,
                col <= w,
                fb@.len() == fb0.len(),
                forall|i: int|
                    0 <= i < fb0.len() ==> #[trigger] fb@[i] == (if i / 4 < fb0.len() / 4 && glyph_done(i / 4, s, x0 as int, y0 as int, x1 as int, y1 as int, gx as int, gy as int, g@, row as int, col as int) {
                        pixel_byte(p, i % 4)
                    } else {
                        fb0[i]
                    }),
            decreases w - col,
        {
            let px: i128 = gx as i128 + col as i128;
            let py: i128 = gy as i128 + row as i128;
            let ghost before = fb@;
            if (x0 as i128) <= px && px < (x1 as i128) && (y0 as i128) <= py && py < (y1 as i128) && g.get_pixel(col, row) {
                let slot = slot_of(py as i64, px as i64, stride);
                put(fb, slot, p);
                proof {
                    lemma_box_of(py as int, px as int, s, x0 as int);
                    assert forall|i: int| 0 <= i < fb0.len() implies #[trigger] fb@[i] == (if i / 4 < fb0.len() / 4 && glyph_done(i / 4, s, x0 as int, y0 as int, x1 as int, y1 as int, gx as int, gy as int, g@, row as int, col + 1) {
                        pixel_byte(p, i % 4)
                    } else {
                        fb0[i]
                    }) by {
                        let t = i / 4;
                        lemma_box_parts(t, s, x0 as int);
                        if box_x(t, s, x0 as int) == px && box_y(t, s, x0 as int) == py {
                            assert(t == slot);
                        }
                        assert(before[i] == fb@[i] || t == slot);
                    }
                }
            } else {
                proof {
                    assert forall|i: int| 0 <= i < fb0.len() implies #[trigger] fb@[i] == (if i / 4 < fb0.len() / 4 && glyph_done(i / 4, s, x0 as int, y0 as int, x1 as int, y1 as int, gx as int, gy as int, g@, row as int, col + 1) {
                        pixel_byte(p, i % 4)
                    } else {
                        fb0[i]
                    }) by {
                        let t = i / 4;
                        lemma_box_parts(t, s, x0 as int);
                    }
                }
            }
            col = col + 1;
        }
        proof {
            assert forall|i: int| 0 <= i < fb0.len() implies #[trigger] fb@[i] == (if i / 4 < fb0.len() / 4 && glyph_done(i / 4, s, x0 as int, y0 as int, x1 as int, y1 as int, gx as int, gy as int, g@, row + 1, 0) {
                pixel_byte(p, i % 4)
            } else {
                fb0[i]
            }) by {}
        }
        row = row + 1;
    }
    proof {
        assert(apply(fb0, s, op) =~= fb@);
    }
}

fn mix_u8(src: u8, a: u8, old: u8) -> (r: u8)
    ensures
        r == mix_channel(src, a, old),
{
    assert(src as int * a as int + old as int * (255 - a as int) <= 255 * 255) by (nonlinear_arith)
        requires
            src <= 255,
            a <= 255,
            old <= 255,
    ;
    ((src as u32 * a as u32 + old as u32 * (255 - a as u32)) / 255) as u8
}

/// Blend a source pixel over the pixel at column `x`, row `y`, when it fits.
fn mix(fb: &mut [u8], stride: u32, x: i64, y: i64, src: Pixel)
    requires
        0 <= x,
        0 <= y,
    ensures
        final(fb)@ == apply(old(fb)@, stride as int, PaintView::Mix { x: x as int, y: y as int, src }),
{
    let ghost fb0 = fb@;
    let slot = slot_of(y, x, stride);
    let n = fb.len();
    if slot < (n / 4) as u128 {
        let o = (slot * 4) as usize;
        let c0 = mix_u8(src.0, src.3, fb[o]);
        let c1 = mix_u8(src.1, src.3, fb[o + 1]);
        let c2 = mix_u8(src.2, src.3, fb[o + 2]);
        fb[o] = c0;
        fb[o + 1] = c1;
        fb[o + 2] = c2;
        fb[o + 3] = 255;
    }
    proof {
        assert forall|i: int| 0 <= i < fb0.len() implies #[trigger] fb@[i] == apply(fb0, stride as int, PaintView::Mix { x: x as int, y: y as int, src })[i] by {
            if i / 4 == slot && i / 4 < fb0.len() / 4 {
                assert(i == slot * 4 + i % 4);
            }
        }
        assert(fb@ =~= apply(fb0, stride as int, PaintView::Mix { x: x as int, y: y as int, src }));
    }
}

/// Apply one paint operation.
pub fn paint(fb: &mut [u8], stride: u32, op: &Paint)
    requires
        paint_wf(op@, stride as int),
    ensures
        final(fb)@ == apply(old(fb)@, stride as int, op@),
{
    match op {
        Paint::Bytes { at, bytes } => copy_bytes(fb, *at, bytes),
        Paint::Clear { pixel } => clear(fb, *pixel),
        Paint::Fill { x0, y0, x1, y1, pixel } => fill(fb, stride, *x0, *y0, *x1, *y1, *pixel),
        Paint::Glyph { x0, y0, x1, y1, gx, gy, glyph: g, pixel } => glyph(fb, stride, *x0, *y0, *x1, *y1, *gx, *gy, g, *pixel),
        Paint::Mix { x, y, src } => mix(fb, stride, *x, *y, *src),
    }
}

/// Every operation of a list can be applied to a buffer `stride` wide.
pub open spec fn ops_wf(ops: Seq<PaintView>, stride: int) -> bool {
    forall|k: int| 0 <= k < ops.len() ==> paint_wf(#[trigger] ops[k], stride)
}

/// Apply a list of paint operations, in order.
pub fn paint_all(fb: &mut [u8], stride: u32, ops: &Vec<Paint>)
    requires
        ops_wf(paint_views(ops@), stride as int),
    ensures
        final(fb)@ == render(old(fb)@, stride as int, paint_views(ops@)),
{
    let ghost fb0 = fb@;
    let mut k: usize = 0;
    while k < ops.len()
        invariant
            k <= ops@.len(),
            ops_wf(paint_views(ops@), stride as int),
            fb@ == render(fb0, stride as int, paint_views(ops@).take(k as int)),
        decreases ops@.len() - k,
    {
        proof {
            assert(paint_views(ops@)[k as int] == ops@[k as int]@);
        }
        paint(fb, stride, &ops[k]);
        proof {
            assert(paint_views(ops@).take(k + 1).drop_last() =~= paint_views(ops@).take(k as int));
        }
        k = k + 1;
    }
    proof {
        assert(paint_views(ops@).take(k as int) =~= paint_views(ops@));
    }
}

} // verus!
