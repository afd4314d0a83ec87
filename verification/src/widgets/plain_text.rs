//! A widget that shows the text stored on its Thing, line by line.

use vstd::prelude::*;
use crate::abi::{SymbolMap, ValueView};
use crate::canon::{Symbol, TEXT};
use crate::raster::{argb, ops_wf, paint_all, paint_views, render, spec_argb, Paint, PaintView, Pixel, Rect};
use crate::records::GraphPropsGetRequest;
use crate::widget_abi::{
    fill_box, lemma_draw_wf, lemma_ops_wf_append, prop_text_or, props_view, push_fill_box, push_text, text_field,
    text_ops, text_or,
    Advance, Clip, Stop, TextStyle, WidgetEvent,
};

verus! {

/// The plain text widget.
pub struct PlainTextWidget;

/// Its Thing and the text it was made with.
pub struct State {
    pub widget_id: u128,
    pub text: String,
}

/// The text shown before the Thing says otherwise.
pub open spec fn default_text() -> Seq<char> {
    "Plain text"@
}

/// How the text is set: the first 8 columns of each glyph, 8 pixels a
/// character, line by line 18 rows apart, clipped to the widget, in
/// `#333333`.
pub open spec fn text_style(rect: Rect) -> TextStyle {
    TextStyle {
        eight_columns: true,
        advance: Advance::Fixed,
        multiline: true,
        stop: Stop::Never,
        clip: Clip {
            x0: rect.x as i64,
            y0: rect.y as i64,
            x1: (rect.x + rect.width) as i64,
            y1: (rect.y + rect.height) as i64,
        },
        pixel: Pixel(0x33, 0x33, 0x33, 0xff),
    }
}

/// What the widget draws: the widget cleared to transparent black, then the
/// text from 8 pixels in from its top left corner.
pub open spec fn spec_draw(text: Seq<char>, rect: Rect) -> Seq<PaintView> {
    fill_box(rect.x as int, rect.y as int, rect.x + rect.width, rect.y + rect.height, rect.width as int, spec_argb(0))
        + text_ops(text, rect.x + 8, rect.y + 8, rect.x + 8, text_style(rect))
}

impl PlainTextWidget {
    /// What to read from the widget's Thing: its text.
    pub fn props_request(widget_id: u128) -> (r: GraphPropsGetRequest)
        ensures
            r.node == widget_id,
            r.keys@ == seq![Symbol(TEXT)],
    {
        let mut keys: Vec<Symbol> = Vec::new();
        keys.push(Symbol(TEXT));
        GraphPropsGetRequest { node: widget_id, keys }
    }

    /// The state of a widget whose Thing read as `props` (`None` when it
    /// could not be read).
    pub fn init(widget_id: u128, props: Option<&SymbolMap>) -> (s: State)
        ensures
            s.widget_id == widget_id,
            s.text@ == text_or(props_view(props), TEXT, default_text()),
    {
        let text = prop_text_or(props, TEXT, "Plain text");
        State { widget_id, text }
    }

    /// The paint operations of a drawing of `text`.
    pub fn draw_ops(text: &str, rect: Rect) -> (ops: Vec<Paint>)
        requires
            text@.len() < 0x1000_0000,
        ensures
            paint_views(ops@) == spec_draw(text@, rect),
            ops_wf(paint_views(ops@), rect.width as int),
    {
        let mut ops: Vec<Paint> = Vec::new();
        proof {
            assert(paint_views(ops@) =~= Seq::<PaintView>::empty());
        }
        let x0 = rect.x as i64;
        let y0 = rect.y as i64;
        let x1 = rect.x as i64 + rect.width as i64;
        let y1 = rect.y as i64 + rect.height as i64;
        push_fill_box(&mut ops, x0, y0, x1, y1, rect.width, argb(0));
        let st = TextStyle {
            eight_columns: true,
            advance: Advance::Fixed,
            multiline: true,
            stop: Stop::Never,
            clip: Clip { x0, y0, x1, y1 },
            pixel: Pixel(0x33, 0x33, 0x33, 0xff),
        };
        push_text(&mut ops, text, x0 + 8, y0 + 8, st);
        proof {
            assert(st == text_style(rect));
            assert(paint_views(ops@) =~= spec_draw(text@, rect));
            lemma_draw_wf(rect.width as int);
            lemma_ops_wf_append(
                fill_box(rect.x as int, rect.y as int, rect.x + rect.width, rect.y + rect.height, rect.width as int, spec_argb(0)),
                text_ops(text@, rect.x + 8, rect.y + 8, rect.x + 8, text_style(rect)),
                rect.width as int,
            );
        }
        ops
    }

    /// Draw the widget: its Thing's text when `props` (the Thing as read now)
    /// has one, else the text it holds. Nothing is drawn into an empty rect.
    pub fn draw(state: &State, fb: &mut [u8], rect: Rect, props: Option<&SymbolMap>)
        requires
            state.text@.len() < 0x1000_0000,
            props matches Some(p) ==> (text_field(p@, TEXT) matches Some(t) ==> t.len() < 0x1000_0000),
        ensures
            rect.width == 0 || rect.height == 0 ==> final(fb)@ == old(fb)@,
            rect.width != 0 && rect.height != 0 ==> final(fb)@ == render(
                old(fb)@,
                rect.width as int,
                spec_draw(text_or(props_view(props), TEXT, state.text@), rect),
            ),
    {
        if rect.width == 0 || rect.height == 0 {
            return;
        }
        let text = prop_text_or(props, TEXT, state.text.as_str());
        let ops = Self::draw_ops(text.as_str(), rect);
        paint_all(fb, rect.width, &ops);
    }

    /// Input changes nothing.
    pub fn handle_event(state: &mut State, event: WidgetEvent)
        ensures
            final(state).widget_id == old(state).widget_id,
            final(state).text@ == old(state).text@,
    {
    }
}

} // verus!
