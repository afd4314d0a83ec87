//! An entry of the launcher: for now a dark grey tile.

use vstd::prelude::*;
use crate::raster::{argb, ops_wf, paint_all, paint_views, render, spec_argb, Paint, PaintView, Rect};
use crate::widget_abi::{fill_box, lemma_draw_wf, no_ops, push_fill_box, WidgetEvent};

verus! {

/// The launcher entry widget.
pub struct LauncherEntryWidget;

/// The label it holds.
pub struct State {
    pub label: String,
}

/// What an entry draws: its rect in dark grey.
pub open spec fn spec_draw(rect: Rect) -> Seq<PaintView> {
    fill_box(rect.x as int, rect.y as int, rect.x + rect.width, rect.y + rect.height, rect.width as int, spec_argb(0xff44_4444))
}

impl LauncherEntryWidget {
    /// A new entry.
    pub fn init() -> (s: State)
        ensures
            s.label@ == "Launcher Entry"@,
    {
        State { label: String::from_str("Launcher Entry") }
    }

    /// The paint operations of an entry.
    pub fn draw_ops(rect: Rect) -> (ops: Vec<Paint>)
        ensures
            paint_views(ops@) == spec_draw(rect),
            ops_wf(paint_views(ops@), rect.width as int),
    {
        let mut ops = no_ops();
        let x = rect.x as i64;
        let y = rect.y as i64;
        push_fill_box(&mut ops, x, y, x + rect.width as i64, y + rect.height as i64, rect.width, argb(0xff44_4444));
        proof {
            lemma_draw_wf(rect.width as int);
            assert(Seq::<PaintView>::empty() + spec_draw(rect) =~= spec_draw(rect));
        }
        ops
    }

    /// Draw the entry.
    pub fn draw(state: &State, fb: &mut [u8], rect: Rect)
        ensures
            final(fb)@ == render(old(fb)@, rect.width as int, spec_draw(rect)),
    {
        let ops = Self::draw_ops(rect);
        paint_all(fb, rect.width, &ops);
    }

    /// Input changes nothing.
    pub fn handle_event(state: &mut State, event: WidgetEvent)
        ensures
            final(state).label@ == old(state).label@,
    {
    }
}

} // verus!
