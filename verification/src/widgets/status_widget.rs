//! A status line for the dashboard: the text on its Thing, green on dark
//! grey, in the shared buffer.

use vstd::prelude::*;
use crate::abi::SymbolMap;
use crate::canon::{Symbol, TEXT};
use crate::raster::{ops_wf, paint_all, paint_views, render, Paint, PaintView, Pixel, Rect};
use crate::records::GraphPropsGetRequest;
use crate::widget_abi::{
    fill_box, lemma_draw_wf, lemma_ops_wf_append, line_style, no_ops, prop_text_or, props_view, push_fill_box,
    push_text, spec_line_style, text_field, text_ops, text_or, Advance, WidgetEvent, SHARED_STRIDE,
};

verus! {

/// The status widget.
pub struct StatusWidget;

/// Its Thing and the status it shows before the Thing says otherwise.
pub struct State {
    pub widget_id: u128,
    pub status_text: String,
}

/// The status shown before the Thing says otherwise.
pub open spec fn default_status() -> Seq<char> {
    "Graph: Connected | Input: OK"@
}

/// What the widget draws into the shared buffer: its rect in dark grey, and
/// the status 5 pixels in, green (8 columns and 8 pixels per character the
/// font has).
pub open spec fn spec_draw(status: Seq<char>, rect: Rect) -> Seq<PaintView> {
    fill_box(rect.x as int, rect.y as int, rect.x + rect.width, rect.y + rect.height, SHARED_STRIDE as int, Pixel(30, 30, 30, 255))
        + text_ops(status, rect.x + 5, rect.y + 5, rect.x + 5, spec_line_style(true, Advance::FontFixed, Pixel(0, 255, 0, 255)))
}

impl StatusWidget {
    /// What to read from the widget's Thing when drawing: its text.
    pub fn props_request(widget_id: u128) -> (r: GraphPropsGetRequest)
        ensures
            r.node == widget_id,
            r.keys@ == seq![Symbol(TEXT)],
    {
        let mut keys: Vec<Symbol> = Vec::new();
        keys.push(Symbol(TEXT));
        GraphPropsGetRequest { node: widget_id, keys }
    }

    /// A new status widget.
    pub fn init(widget_id: u128) -> (s: State)
        ensures
            s.widget_id == widget_id,
            s.status_text@ == default_status(),
    {
        State { widget_id, status_text: String::from_str("Graph: Connected | Input: OK") }
    }

    /// The paint operations of a drawing of `status`.
    pub fn draw_ops(status: &str, rect: Rect) -> (ops: Vec<Paint>)
        requires
            status@.len() < 0x1000_0000,
        ensures
            paint_views(ops@) == spec_draw(status@, rect),
            ops_wf(paint_views(ops@), SHARED_STRIDE as int),
    {
        let mut ops = no_ops();
        let x = rect.x as i64;
        let y = rect.y as i64;
        push_fill_box(&mut ops, x, y, x + rect.width as i64, y + rect.height as i64, SHARED_STRIDE, Pixel(30, 30, 30, 255));
        push_text(&mut ops, status, x + 5, y + 5, line_style(true, Advance::FontFixed, Pixel(0, 255, 0, 255)));
        proof {
            lemma_draw_wf(SHARED_STRIDE as int);
            lemma_ops_wf_append(
                fill_box(rect.x as int, rect.y as int, rect.x + rect.width, rect.y + rect.height, SHARED_STRIDE as int, Pixel(30, 30, 30, 255)),
                text_ops(status@, rect.x + 5, rect.y + 5, rect.x + 5, spec_line_style(true, Advance::FontFixed, Pixel(0, 255, 0, 255))),
                SHARED_STRIDE as int,
            );
        }
        ops
    }

    /// Draw the status (the Thing's text when `props`, the Thing as read now,
    /// has one) into the shared buffer.
    pub fn draw(state: &State, fb: &mut [u8], rect: Rect, props: Option<&SymbolMap>)
        requires
            state.status_text@.len() < 0x1000_0000,
            props matches Some(p) ==> (text_field(p@, TEXT) matches Some(t) ==> t.len() < 0x1000_0000),
        ensures
            final(fb)@ == render(old(fb)@, SHARED_STRIDE as int, spec_draw(text_or(props_view(props), TEXT, state.status_text@), rect)),
    {
        let status = prop_text_or(props, TEXT, state.status_text.as_str());
        let ops = Self::draw_ops(status.as_str(), rect);
        paint_all(fb, SHARED_STRIDE, &ops);
    }

    /// Input changes nothing.
    pub fn handle_event(state: &mut State, event: WidgetEvent)
        ensures
            final(state).widget_id == old(state).widget_id,
            final(state).status_text@ == old(state).status_text@,
    {
    }
}

} // verus!
