//! The dashboard's Thing inspector: a Thing's id, kind and title, in the
//! shared buffer.

use vstd::prelude::*;
use crate::abi::SymbolMap;
use crate::canon::{Symbol, KIND, TEXT, TITLE};
use crate::raster::{ops_wf, paint_all, paint_views, render, Paint, PaintView, Pixel, Rect};
use crate::records::GraphPropsGetRequest;
use crate::widget_abi::{
    fill_box, lemma_draw_wf, lemma_ops_wf_append, line_style, no_ops, prop_text_or, props_view, push_fill_box,
    push_text, spec_line_style, text_field, text_ops, text_or, Advance, WidgetEvent, SHARED_STRIDE,
};

verus! {

/// The Thing inspector widget.
pub struct ThingInspectorWidget;

/// Its Thing, and what it shows before the Thing says otherwise.
pub struct State {
    pub widget_id: u128,
    pub thing_id: String,
    pub kind: String,
    pub title: String,
}

/// The style of the inspector's lines.
pub open spec fn line(pixel: Pixel) -> crate::widget_abi::TextStyle {
    spec_line_style(false, Advance::FontWidth, pixel)
}

/// What the inspector draws into the shared buffer: its rect in light grey,
/// a black heading, and the id, kind and title lines in dark grey, 20 rows
/// apart, 5 pixels in.
pub open spec fn spec_draw(id: Seq<char>, kind: Seq<char>, title: Seq<char>, rect: Rect) -> Seq<PaintView> {
    let x = rect.x + 5;
    fill_box(rect.x as int, rect.y as int, rect.x + rect.width, rect.y + rect.height, SHARED_STRIDE as int, Pixel(240, 240, 240, 255))
        + text_ops("Inspector"@, x, rect.y + 5, x, line(Pixel(0, 0, 0, 255)))
        + text_ops("ID: "@ + id, x, rect.y + 25, x, line(Pixel(50, 50, 50, 255)))
        + text_ops("Kind: "@ + kind, x, rect.y + 45, x, line(Pixel(50, 50, 50, 255)))
        + text_ops("Title: "@ + title, x, rect.y + 65, x, line(Pixel(50, 50, 50, 255)))
}

fn labelled(label: &str, value: &str) -> (s: String)
    ensures
        s@ == label@ + value@,
{
    let mut s = String::from_str(label);
    s.append(value);
    s
}

impl ThingInspectorWidget {
    /// What to read from the widget's Thing when drawing: the text (the id
    /// shown), kind and title.
    pub fn props_request(widget_id: u128) -> (r: GraphPropsGetRequest)
        ensures
            r.node == widget_id,
            r.keys@ == seq![Symbol(TEXT), Symbol(KIND), Symbol(TITLE)],
    {
        let mut keys: Vec<Symbol> = Vec::new();
        keys.push(Symbol(TEXT));
        keys.push(Symbol(KIND));
        keys.push(Symbol(TITLE));
        GraphPropsGetRequest { node: widget_id, keys }
    }

    /// A new inspector.
    pub fn init(widget_id: u128) -> (s: State)
        ensures
            s.widget_id == widget_id,
            s.thing_id@ == "0000-0000-0000-0000"@,
            s.kind@ == "demo_dashboard"@,
            s.title@ == "Dashboard Root"@,
    {
        State {
            widget_id,
            thing_id: String::from_str("0000-0000-0000-0000"),
            kind: String::from_str("demo_dashboard"),
            title: String::from_str("Dashboard Root"),
        }
    }

    /// The paint operations of a drawing of a Thing's id, kind and title.
    pub fn draw_ops(id: &str, kind: &str, title: &str, rect: Rect) -> (ops: Vec<Paint>)
        requires
            id@.len() < 0x100_0000,
            kind@.len() < 0x100_0000,
            title@.len() < 0x100_0000,
        ensures
            paint_views(ops@) == spec_draw(id@, kind@, title@, rect),
            ops_wf(paint_views(ops@), SHARED_STRIDE as int),
    {
        proof {
            reveal_strlit("Inspector");
            reveal_strlit("ID: ");
            reveal_strlit("Kind: ");
            reveal_strlit("Title: ");
        }
        let mut ops = no_ops();
        let x = rect.x as i64;
        let y = rect.y as i64;
        push_fill_box(&mut ops, x, y, x + rect.width as i64, y + rect.height as i64, SHARED_STRIDE, Pixel(240, 240, 240, 255));
        let dark = line_style(false, Advance::FontWidth, Pixel(50, 50, 50, 255));
        push_text(&mut ops, "Inspector", x + 5, y + 5, line_style(false, Advance::FontWidth, Pixel(0, 0, 0, 255)));
        let id_line = labelled("ID: ", id);
        push_text(&mut ops, id_line.as_str(), x + 5, y + 25, dark);
        let kind_line = labelled("Kind: ", kind);
        push_text(&mut ops, kind_line.as_str(), x + 5, y + 45, dark);
        let title_line = labelled("Title: ", title);
        push_text(&mut ops, title_line.as_str(), x + 5, y + 65, dark);
        proof {
            lemma_draw_wf(SHARED_STRIDE as int);
            let xx = rect.x + 5;
            let a = fill_box(rect.x as int, rect.y as int, rect.x + rect.width, rect.y + rect.height, SHARED_STRIDE as int, Pixel(240, 240, 240, 255));
            let b = text_ops("Inspector"@, xx, rect.y + 5, xx, line(Pixel(0, 0, 0, 255)));
            let c = text_ops("ID: "@ + id@, xx, rect.y + 25, xx, line(Pixel(50, 50, 50, 255)));
            let d = text_ops("Kind: "@ + kind@, xx, rect.y + 45, xx, line(Pixel(50, 50, 50, 255)));
            let e = text_ops("Title: "@ + title@, xx, rect.y + 65, xx, line(Pixel(50, 50, 50, 255)));
            lemma_ops_wf_append(a, b, SHARED_STRIDE as int);
            lemma_ops_wf_append(a + b, c, SHARED_STRIDE as int);
            lemma_ops_wf_append(a + b + c, d, SHARED_STRIDE as int);
            lemma_ops_wf_append(a + b + c + d, e, SHARED_STRIDE as int);
        }
        ops
    }

    /// Draw the inspector into the shared buffer: the Thing's text, kind and
    /// title as `props` (the Thing as read now) has them, else what it holds.
    pub fn draw(state: &State, fb: &mut [u8], rect: Rect, props: Option<&SymbolMap>)
        requires
            state.thing_id@.len() < 0x100_0000,
            state.kind@.len() < 0x100_0000,
            state.title@.len() < 0x100_0000,
            props matches Some(p) ==> (forall|k: u32| #[trigger] text_field(p@, k) matches Some(t) ==> t.len() < 0x100_0000),
        ensures
            final(fb)@ == render(
                old(fb)@,
                SHARED_STRIDE as int,
                spec_draw(
                    text_or(props_view(props), TEXT, state.thing_id@),
                    text_or(props_view(props), KIND, state.kind@),
                    text_or(props_view(props), TITLE, state.title@),
                    rect,
                ),
            ),
    {
        let id = prop_text_or(props, TEXT, state.thing_id.as_str());
        let kind = prop_text_or(props, KIND, state.kind.as_str());
        let title = prop_text_or(props, TITLE, state.title.as_str());
        let ops = Self::draw_ops(id.as_str(), kind.as_str(), title.as_str(), rect);
        paint_all(fb, SHARED_STRIDE, &ops);
    }

    /// Input changes nothing.
    pub fn handle_event(state: &mut State, event: WidgetEvent)
        ensures
            final(state).widget_id == old(state).widget_id,
            final(state).thing_id@ == old(state).thing_id@,
            final(state).kind@ == old(state).kind@,
            final(state).title@ == old(state).title@,
    {
    }
}

} // verus!
