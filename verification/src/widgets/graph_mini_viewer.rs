//! The dashboard's small graph picture: three nodes and two edges between
//! them, in the shared buffer.

use vstd::prelude::*;
use crate::raster::{ops_wf, paint_all, paint_views, render, Paint, PaintView, Pixel, Rect};
use crate::widget_abi::{
    fill_box, lemma_draw_wf, lemma_line_wf, lemma_ops_wf_append, line_points, line_style, no_ops, point_ops,
    push_fill_box, push_line, push_text, spec_line_style, text_ops, Advance, WidgetEvent, SHARED_STRIDE,
};

verus! {

/// The graph picture widget.
pub struct GraphMiniViewerWidget;

/// It holds nothing.
#[derive(Clone, Copy, Debug, PartialEq, Eq, Structural)]
pub struct State;

/// What the picture draws into the shared buffer, from the rect's corner
/// `(x, y)`: a near-black background, its heading, a red, a green and a blue
/// 20-pixel node, and white edges from the red node's centre to the green
/// one's and on to the blue one's.
pub open spec fn spec_draw(rect: Rect) -> Seq<PaintView> {
    let x = rect.x as int;
    let y = rect.y as int;
    let s = SHARED_STRIDE as int;
    let white = Pixel(255, 255, 255, 255);
    fill_box(x, y, x + rect.width, y + rect.height, s, Pixel(20, 20, 20, 255))
        + text_ops("Mini Graph"@, x + 5, y + 5, x + 5, spec_line_style(true, Advance::FontFixed, Pixel(200, 200, 200, 255)))
        + fill_box(x + 50, y + 50, x + 70, y + 70, s, Pixel(0, 0, 255, 255))
        + fill_box(x + 100, y + 80, x + 120, y + 100, s, Pixel(0, 255, 0, 255))
        + fill_box(x + 150, y + 40, x + 170, y + 60, s, Pixel(255, 0, 0, 255))
        + point_ops(line_points(x + 60, y + 60, x + 110, y + 90), white)
        + point_ops(line_points(x + 110, y + 90, x + 160, y + 50), white)
}

impl GraphMiniViewerWidget {
    /// A new picture.
    pub fn init() -> (s: State)
        ensures
            s == State,
    {
        State
    }

    /// The paint operations of the picture.
    pub fn draw_ops(rect: Rect) -> (ops: Vec<Paint>)
        ensures
            paint_views(ops@) == spec_draw(rect),
            ops_wf(paint_views(ops@), SHARED_STRIDE as int),
    {
        let mut ops = no_ops();
        let x = rect.x as i64;
        let y = rect.y as i64;
        let white = Pixel(255, 255, 255, 255);
        push_fill_box(&mut ops, x, y, x + rect.width as i64, y + rect.height as i64, SHARED_STRIDE, Pixel(20, 20, 20, 255));
        proof {
            reveal_strlit("Mini Graph");
        }
        push_text(&mut ops, "Mini Graph", x + 5, y + 5, line_style(true, Advance::FontFixed, Pixel(200, 200, 200, 255)));
        push_fill_box(&mut ops, x + 50, y + 50, x + 70, y + 70, SHARED_STRIDE, Pixel(0, 0, 255, 255));
        push_fill_box(&mut ops, x + 100, y + 80, x + 120, y + 100, SHARED_STRIDE, Pixel(0, 255, 0, 255));
        push_fill_box(&mut ops, x + 150, y + 40, x + 170, y + 60, SHARED_STRIDE, Pixel(255, 0, 0, 255));
        push_line(&mut ops, x + 60, y + 60, x + 110, y + 90, white);
        push_line(&mut ops, x + 110, y + 90, x + 160, y + 50, white);
        proof {
            let xx = rect.x as int;
            let yy = rect.y as int;
            let s = SHARED_STRIDE as int;
            lemma_draw_wf(s);
            lemma_line_wf(xx + 60, yy + 60, xx + 110, yy + 90, white, s);
            lemma_line_wf(xx + 110, yy + 90, xx + 160, yy + 50, white, s);
            let a = fill_box(xx, yy, xx + rect.width, yy + rect.height, s, Pixel(20, 20, 20, 255));
            let b = text_ops("Mini Graph"@, xx + 5, yy + 5, xx + 5, spec_line_style(true, Advance::FontFixed, Pixel(200, 200, 200, 255)));
            let c = fill_box(xx + 50, yy + 50, xx + 70, yy + 70, s, Pixel(0, 0, 255, 255));
            let d = fill_box(xx + 100, yy + 80, xx + 120, yy + 100, s, Pixel(0, 255, 0, 255));
            let e = fill_box(xx + 150, yy + 40, xx + 170, yy + 60, s, Pixel(255, 0, 0, 255));
            let f = point_ops(line_points(xx + 60, yy + 60, xx + 110, yy + 90), white);
            let g = point_ops(line_points(xx + 110, yy + 90, xx + 160, yy + 50), white);
            lemma_ops_wf_append(a, b, s);
            lemma_ops_wf_append(a + b, c, s);
            lemma_ops_wf_append(a + b + c, d, s);
            lemma_ops_wf_append(a + b + c + d, e, s);
            lemma_ops_wf_append(a + b + c + d + e, f, s);
            lemma_ops_wf_append(a + b + c + d + e + f, g, s);
        }
        ops
    }

    /// Draw the picture into the shared buffer.
    pub fn draw(state: &State, fb: &mut [u8], rect: Rect)
        ensures
            final(fb)@ == render(old(fb)@, SHARED_STRIDE as int, spec_draw(rect)),
    {
        let ops = Self::draw_ops(rect);
        paint_all(fb, SHARED_STRIDE, &ops);
    }

    /// Input changes nothing.
    pub fn handle_event(state: &mut State, event: WidgetEvent)
        ensures
            *final(state) == *old(state),
    {
    }
}

} // verus!
