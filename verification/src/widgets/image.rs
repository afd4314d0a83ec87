//! An image: the pixel rows stored on its Thing copied into the widget's
//! buffer, or a red placeholder when it has none.

use vstd::prelude::*;
use vstd::math::min;
use crate::abi::{SymbolMap, Value, ValueView};
use crate::canon::{Symbol, HEIGHT, WIDTH};
use crate::raster::{argb, ops_wf, paint_all, paint_views, render, spec_argb, Paint, PaintView, Rect};
use crate::records::GraphPropsGetRequest;
use crate::thingable::{field_bytes, field_u64, get_u64};
use crate::ui_graph::IMAGE_DATA;
use crate::widget_abi::{no_ops, props_view, WidgetEvent};

verus! {

/// The image widget.
pub struct ImageWidget;

/// An image's pixels (four bytes each, rows `width` pixels long) and size.
pub struct State {
    pub image_data: Vec<u8>,
    pub width: u32,
    pub height: u32,
}

/// What an image's state denotes.
pub struct StateView {
    pub image_data: Seq<u8>,
    pub width: u32,
    pub height: u32,
}

impl View for State {
    type V = StateView;

    open spec fn view(&self) -> StateView {
        StateView { image_data: self.image_data@, width: self.width, height: self.height }
    }
}

/// The image a Thing read as `props` holds: its image bytes and its size
/// (cut to 32 bits), each empty or 0 where missing.
pub open spec fn spec_init(props: Option<Map<u32, ValueView>>) -> StateView {
    match props {
        Some(p) => StateView {
            image_data: match field_bytes(p, IMAGE_DATA) {
                Some(b) => b,
                None => Seq::empty(),
            },
            width: match field_u64(p, WIDTH) {
                Some(w) => w as u32,
                None => 0,
            },
            height: match field_u64(p, HEIGHT) {
                Some(h) => h as u32,
                None => 0,
            },
        },
        None => StateView { image_data: Seq::empty(), width: 0, height: 0 },
    }
}

/// The rows shown: as many as both the image and the widget have.
pub open spec fn shown_rows(s: StateView, r: Rect) -> int {
    min(s.height as int, r.height as int)
}

/// The pixels of a row shown: as many as both have.
pub open spec fn shown_columns(s: StateView, r: Rect) -> int {
    min(s.width as int, r.width as int)
}

/// A product in 32-bit arithmetic, wrapping.
pub open spec fn mul32(a: int, b: int) -> int {
    vstd::wrapping::u32_specs::wrapping_mul(a as u32, b as u32) as int
}

/// The copies of the image's rows from row `y`: each shown row whose bytes
/// the image holds, to the same row of the buffer (row offsets and lengths
/// in bytes computed in 32 bits, wrapping).
pub open spec fn row_ops(s: StateView, r: Rect, y: int) -> Seq<PaintView>
    decreases shown_rows(s, r) - y,
{
    if y < 0 || y >= shown_rows(s, r) {
        Seq::empty()
    } else {
        let src = mul32(y, mul32(s.width as int, 4));
        let n = mul32(shown_columns(s, r), 4);
        (if src + n <= s.image_data.len() {
            seq![PaintView::Bytes { at: mul32(y, mul32(r.width as int, 4)), bytes: s.image_data.subrange(src, src + n) }]
        } else {
            Seq::empty()
        }) + row_ops(s, r, y + 1)
    }
}

/// The drawing of an image: a red buffer when it has no bytes, else its rows
/// copied.
pub open spec fn spec_draw(s: StateView, r: Rect) -> Seq<PaintView> {
    if s.image_data.len() == 0 {
        seq![PaintView::Clear { pixel: spec_argb(0xff00_00ff) }]
    } else {
        row_ops(s, r, 0)
    }
}

fn copy_range(data: &Vec<u8>, from: usize, to: usize) -> (out: Vec<u8>)
    requires
        from <= to <= data@.len(),
    ensures
        out@ == data@.subrange(from as int, to as int),
{
    let mut out: Vec<u8> = Vec::new();
    let mut i = from;
    while i < to
        invariant
            from <= i <= to <= data@.len(),
            out@ == data@.subrange(from as int, i as int),
        decreases to - i,
    {
        out.push(data[i]);
        proof {
            assert(data@.subrange(from as int, i + 1) =~= data@.subrange(from as int, i as int).push(data@[i as int]));
        }
        i = i + 1;
    }
    out
}

impl ImageWidget {
    /// What to read from the widget's Thing: image bytes and size.
    pub fn props_request(widget_id: u128) -> (r: GraphPropsGetRequest)
        ensures
            r.node == widget_id,
            r.keys@ == seq![Symbol(IMAGE_DATA), Symbol(WIDTH), Symbol(HEIGHT)],
    {
        let mut keys: Vec<Symbol> = Vec::new();
        keys.push(Symbol(IMAGE_DATA));
        keys.push(Symbol(WIDTH));
        keys.push(Symbol(HEIGHT));
        GraphPropsGetRequest { node: widget_id, keys }
    }

    /// The image a Thing read as `props` holds.
    pub fn init(props: Option<&SymbolMap>) -> (s: State)
        ensures
            s@ == spec_init(props_view(props)),
    {
        match props {
            Some(p) => {
                let image_data = match p.get(&Symbol(IMAGE_DATA)) {
                    Some(Value::Bytes(b)) => {
                        let n = b.len();
                        copy_range(b, 0, n)
                    },
                    _ => Vec::new(),
                };
                let width = match get_u64(p, WIDTH) {
                    Some(w) => w as u32,
                    None => 0,
                };
                let height = match get_u64(p, HEIGHT) {
                    Some(h) => h as u32,
                    None => 0,
                };
                proof {
                    if !(field_bytes(p@, IMAGE_DATA) is Some) {
                        assert(image_data@ =~= Seq::<u8>::empty());
                    } else {
                        assert(field_bytes(p@, IMAGE_DATA)->0 =~= field_bytes(p@, IMAGE_DATA)->0.subrange(0, field_bytes(p@, IMAGE_DATA)->0.len() as int));
                    }
                }
                State { image_data, width, height }
            },
            None => {
                let s = State { image_data: Vec::new(), width: 0, height: 0 };
                proof {
                    assert(s@.image_data =~= Seq::<u8>::empty());
                }
                s
            },
        }
    }

    /// The paint operations of a drawing.
    pub fn draw_ops(state: &State, rect: Rect) -> (ops: Vec<Paint>)
        ensures
            paint_views(ops@) == spec_draw(state@, rect),
            ops_wf(paint_views(ops@), rect.width as int),
    {
        let mut ops = no_ops();
        if state.image_data.len() == 0 {
            ops.push(Paint::Clear { pixel: argb(0xff00_00ff) });
            proof {
                assert(paint_views(ops@) =~= spec_draw(state@, rect));
            }
            return ops;
        }
        let img_stride: u32 = state.width.wrapping_mul(4);
        let fb_stride: u32 = rect.width.wrapping_mul(4);
        let cw: u32 = if state.width < rect.width {
            state.width
        } else {
            rect.width
        };
        let ch: u32 = if state.height < rect.height {
            state.height
        } else {
            rect.height
        };
        let n: u32 = cw.wrapping_mul(4);
        proof {
            assert(paint_views(ops@) + row_ops(state@, rect, 0) =~= row_ops(state@, rect, 0));
        }
        let mut y: u32 = 0;
        while y < ch
            invariant
                0 <= y <= ch,
                ch == shown_rows(state@, rect),
                n == mul32(shown_columns(state@, rect), 4),
                img_stride == mul32(state.width as int, 4),
                fb_stride == mul32(rect.width as int, 4),
                row_ops(state@, rect, 0) == paint_views(ops@) + row_ops(state@, rect, y as int),
                forall|k: int| 0 <= k < ops@.len() ==> (#[trigger] ops@[k]) is Bytes,
            decreases ch - y,
        {
            let src: usize = y.wrapping_mul(img_stride) as usize;
            let dst: u32 = y.wrapping_mul(fb_stride);
            let ghost before = paint_views(ops@);
            if src <= state.image_data.len() && (n as usize) <= state.image_data.len() - src {
                let bytes = copy_range(&state.image_data, src, src + n as usize);
                ops.push(Paint::Bytes { at: dst as u128, bytes });
                proof {
                    assert(paint_views(ops@) =~= before + seq![
                        PaintView::Bytes { at: dst as int, bytes: state.image_data@.subrange(src as int, src + n) },
                    ]);
                }
            }
            proof {
                let here = if src + n <= state.image_data@.len() {
                    seq![PaintView::Bytes { at: dst as int, bytes: state.image_data@.subrange(src as int, src + n) }]
                } else {
                    Seq::<PaintView>::empty()
                };
                assert(row_ops(state@, rect, y as int) == here + row_ops(state@, rect, y + 1));
                assert(before + (here + row_ops(state@, rect, y + 1)) =~= (before + here) + row_ops(state@, rect, y + 1));
                assert(paint_views(ops@) == before + here) by {
                    if !(src + n <= state.image_data@.len()) {
                        assert(before + here =~= before);
                    }
                }
            }
            y = y + 1;
        }
        proof {
            assert(row_ops(state@, rect, y as int) =~= Seq::<PaintView>::empty());
            assert(paint_views(ops@) + Seq::<PaintView>::empty() =~= paint_views(ops@));
            assert forall|k: int| 0 <= k < paint_views(ops@).len() implies crate::raster::paint_wf(#[trigger] paint_views(ops@)[k], rect.width as int) by {
                assert(ops@[k] is Bytes);
            }
        }
        ops
    }

    /// Draw the image into a buffer `rect.width` pixels wide.
    pub fn draw(state: &State, fb: &mut [u8], rect: Rect)
        ensures
            final(fb)@ == render(old(fb)@, rect.width as int, spec_draw(state@, rect)),
    {
        let ops = Self::draw_ops(state, rect);
        paint_all(fb, rect.width, &ops);
    }

    /// An image ignores input.
    pub fn handle_event(state: &mut State, event: WidgetEvent)
        ensures
            final(state)@ == old(state)@,
    {
    }
}

} // verus!
