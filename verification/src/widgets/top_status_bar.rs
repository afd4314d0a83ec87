//! The dashboard's top bar: a title on the left and a clock on the right,
//! in the shared buffer.

use vstd::prelude::*;
use crate::raster::{ops_wf, paint_all, paint_views, render, Paint, PaintView, Pixel, Rect};
use crate::widget_abi::{
    fill_box, lemma_draw_wf, lemma_ops_wf_append, line_style, no_ops, push_fill_box, push_text, spec_line_style,
    text_ops, Advance, WidgetEvent, SHARED_STRIDE,
};

verus! {

/// The top status bar widget.
pub struct TopStatusBarWidget;

/// The title it shows.
pub struct State {
    pub title: String,
}

/// The title a new bar shows.
pub open spec fn default_title() -> Seq<char> {
    "ThingOS Demo Dashboard"@
}

/// The time the bar shows.
pub open spec fn clock_text() -> Seq<char> {
    "12:00 PM"@
}

/// What the bar draws into the shared buffer: its rect in dark grey, the
/// title in white 10 pixels in and 8 down, and the clock in light grey
/// ending 10 pixels before the right edge (counting 8 pixels a character).
pub open spec fn spec_draw(title: Seq<char>, rect: Rect) -> Seq<PaintView> {
    fill_box(rect.x as int, rect.y as int, rect.x + rect.width, rect.y + rect.height, SHARED_STRIDE as int, Pixel(34, 34, 34, 255))
        + text_ops(title, rect.x + 10, rect.y + 8, rect.x + 10, spec_line_style(false, Advance::FontWidth, Pixel(255, 255, 255, 255)))
        + text_ops(
        clock_text(),
        rect.x + rect.width - 64 - 10,
        rect.y + 8,
        rect.x + rect.width - 64 - 10,
        spec_line_style(false, Advance::FontWidth, Pixel(200, 200, 200, 255)),
    )
}

impl TopStatusBarWidget {
    /// A new bar.
    pub fn init() -> (s: State)
        ensures
            s.title@ == default_title(),
    {
        State { title: String::from_str("ThingOS Demo Dashboard") }
    }

    /// The paint operations of a drawing with `title`.
    pub fn draw_ops(title: &str, rect: Rect) -> (ops: Vec<Paint>)
        requires
            title@.len() < 0x1000_0000,
        ensures
            paint_views(ops@) == spec_draw(title@, rect),
            ops_wf(paint_views(ops@), SHARED_STRIDE as int),
    {
        let mut ops = no_ops();
        let x = rect.x as i64;
        let y = rect.y as i64;
        push_fill_box(&mut ops, x, y, x + rect.width as i64, y + rect.height as i64, SHARED_STRIDE, Pixel(34, 34, 34, 255));
        push_text(&mut ops, title, x + 10, y + 8, line_style(false, Advance::FontWidth, Pixel(255, 255, 255, 255)));
        let clock = "12:00 PM";
        proof {
            reveal_strlit("12:00 PM");
        }
        push_text(&mut ops, clock, x + rect.width as i64 - 64 - 10, y + 8, line_style(false, Advance::FontWidth, Pixel(200, 200, 200, 255)));
        proof {
            lemma_draw_wf(SHARED_STRIDE as int);
            let a = fill_box(rect.x as int, rect.y as int, rect.x + rect.width, rect.y + rect.height, SHARED_STRIDE as int, Pixel(34, 34, 34, 255));
            let b = text_ops(title@, rect.x + 10, rect.y + 8, rect.x + 10, spec_line_style(false, Advance::FontWidth, Pixel(255, 255, 255, 255)));
            let c = text_ops(
                clock_text(),
                rect.x + rect.width - 64 - 10,
                rect.y + 8,
                rect.x + rect.width - 64 - 10,
                spec_line_style(false, Advance::FontWidth, Pixel(200, 200, 200, 255)),
            );
            lemma_ops_wf_append(a, b, SHARED_STRIDE as int);
            lemma_ops_wf_append(a + b, c, SHARED_STRIDE as int);
        }
        ops
    }

    /// Draw the bar into the shared buffer.
    pub fn draw(state: &State, fb: &mut [u8], rect: Rect)
        requires
            state.title@.len() < 0x1000_0000,
        ensures
            final(fb)@ == render(old(fb)@, SHARED_STRIDE as int, spec_draw(state.title@, rect)),
    {
        let ops = Self::draw_ops(state.title.as_str(), rect);
        paint_all(fb, SHARED_STRIDE, &ops);
    }

    /// Input changes nothing.
    pub fn handle_event(state: &mut State, event: WidgetEvent)
        ensures
            final(state).title@ == old(state).title@,
    {
    }
}

} // verus!
