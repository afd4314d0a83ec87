//! A toast that shows a notification's message, coloured by its level; a
//! click acknowledges it.

use vstd::prelude::*;
use crate::abi::{SymbolMap, Value, ValueView};
use crate::canon::{Symbol, ACK, LEVEL, MESSAGE};
use crate::layout::BINDS;
use crate::raster::{argb, ops_wf, paint_all, paint_views, render, spec_argb, Paint, PaintView, Rect};
use crate::thingable::{field_uuid, get_uuid};
use crate::widget_abi::{
    fill_box, fill_clipped, lemma_clipped_wf, lemma_draw_wf, lemma_ops_wf_append, no_ops, prop_text_or,
    props_view, push_fill_box, push_fill_clipped, push_text, rect_clip, spec_rect_clip, text_field, text_ops, text_or,
    Advance, InputEvent, Stop, TextStyle, WidgetEvent,
};

verus! {

/// The toast widget.
pub struct NotificationToast;

/// The message and level shown, and the notification they came from.
pub struct State {
    pub message: String,
    pub level: String,
    pub notification_id: Option<u128>,
}

/// The notification a toast's Thing is bound to.
pub open spec fn spec_bound(widget: Option<Map<u32, ValueView>>) -> Option<u128> {
    match widget {
        Some(w) => field_uuid(w, BINDS),
        None => None,
    }
}

/// The background of a toast: dark red for errors, dark yellow for
/// warnings, else near black.
pub open spec fn spec_background(level: Seq<char>) -> u32 {
    if level == "error"@ {
        0xff40_0000
    } else if level == "warn"@ {
        0xff40_4000
    } else {
        0xff20_2020
    }
}

/// How the message is set: whole glyphs, 8 pixels a character, clipped to
/// the toast, in white.
pub open spec fn message_style(rect: Rect) -> TextStyle {
    TextStyle {
        eight_columns: false,
        advance: Advance::Fixed,
        multiline: false,
        stop: Stop::Never,
        clip: spec_rect_clip(rect),
        pixel: spec_argb(0xffff_ffff),
    }
}

/// What a toast draws: its rect in the level's colour, a grey one-pixel
/// border, and the message 10 pixels in.
pub open spec fn spec_draw(message: Seq<char>, level: Seq<char>, rect: Rect) -> Seq<PaintView> {
    let x = rect.x as int;
    let y = rect.y as int;
    let w = rect.width as int;
    let h = rect.height as int;
    let c = spec_rect_clip(rect);
    let border = spec_argb(0xff80_8080);
    fill_clipped(x, y, x + w, y + h, c, w, spec_argb(spec_background(level)))
        + fill_clipped(x, y, x + w, y + 1, c, w, border)
        + fill_clipped(x, y + h - 1, x + w, y + h, c, w, border)
        + fill_clipped(x, y, x + 1, y + h, c, w, border)
        + fill_clipped(x + w - 1, y, x + w, y + h, c, w, border)
        + text_ops(message, x + 10, y + 10, x + 10, message_style(rect))
}

fn background(level: &str) -> (c: u32)
    ensures
        c == spec_background(level@),
{
    if crate::canon::str_eq(level, "error") {
        0xff40_0000
    } else if crate::canon::str_eq(level, "warn") {
        0xff40_4000
    } else {
        0xff20_2020
    }
}

impl NotificationToast {
    /// The notification a toast's Thing (as read; `None` when it could not
    /// be) is bound to.
    pub fn bound_notification(widget: Option<&SymbolMap>) -> (r: Option<u128>)
        ensures
            r == spec_bound(props_view(widget)),
    {
        match widget {
            Some(w) => get_uuid(w, BINDS),
            None => None,
        }
    }

    /// The state of a toast whose Thing read as `widget`, with `notification`
    /// the bound notification as read: its message and level when both
    /// could be read, else empty.
    pub fn init(widget: Option<&SymbolMap>, notification: Option<&SymbolMap>) -> (s: State)
        ensures
            s.notification_id == spec_bound(props_view(widget)),
            s.message@ == (if s.notification_id is Some {
                text_or(props_view(notification), MESSAGE, Seq::empty())
            } else {
                Seq::empty()
            }),
            s.level@ == (if s.notification_id is Some {
                text_or(props_view(notification), LEVEL, Seq::empty())
            } else {
                Seq::empty()
            }),
    {
        let notification_id = Self::bound_notification(widget);
        proof {
            reveal_strlit("");
            assert(""@ =~= Seq::<char>::empty());
        }
        match notification_id {
            Some(_) => State {
                message: prop_text_or(notification, MESSAGE, ""),
                level: prop_text_or(notification, LEVEL, ""),
                notification_id,
            },
            None => State { message: String::new(), level: String::new(), notification_id },
        }
    }

    /// React to input: a press acknowledges the notification, when there is
    /// one; the result is its id and the fields to store on it.
    pub fn handle_event(state: &State, event: WidgetEvent) -> (r: Option<(u128, SymbolMap)>)
        ensures
            match (event, state.notification_id) {
                (WidgetEvent::Input(InputEvent::MouseDown { .. }), Some(nid)) => r matches Some((id, f)) && id == nid
                    && f@ == map![ACK => ValueView::Bool(true)],
                _ => r is None,
            },
    {
        match event {
            WidgetEvent::Input(InputEvent::MouseDown { .. }) => match state.notification_id {
                Some(nid) => {
                    let mut f = SymbolMap::new();
                    f.insert(Symbol(ACK), Value::Bool(true));
                    proof {
                        assert(f@ =~= map![ACK => ValueView::Bool(true)]);
                    }
                    Some((nid, f))
                },
                None => None,
            },
            _ => None,
        }
    }

    /// The paint operations of a toast showing `message` at `level`.
    pub fn draw_ops(message: &str, level: &str, rect: Rect) -> (ops: Vec<Paint>)
        requires
            message@.len() < 0x1000_0000,
        ensures
            paint_views(ops@) == spec_draw(message@, level@, rect),
            ops_wf(paint_views(ops@), rect.width as int),
    {
        let mut ops = no_ops();
        let x = rect.x as i64;
        let y = rect.y as i64;
        let w = rect.width as i64;
        let h = rect.height as i64;
        let c = rect_clip(rect);
        let border = argb(0xff80_8080);
        push_fill_clipped(&mut ops, x, y, x + w, y + h, c, rect.width, argb(background(level)));
        push_fill_clipped(&mut ops, x, y, x + w, y + 1, c, rect.width, border);
        push_fill_clipped(&mut ops, x, y + h - 1, x + w, y + h, c, rect.width, border);
        push_fill_clipped(&mut ops, x, y, x + 1, y + h, c, rect.width, border);
        push_fill_clipped(&mut ops, x + w - 1, y, x + w, y + h, c, rect.width, border);
        let st = TextStyle {
            eight_columns: false,
            advance: Advance::Fixed,
            multiline: false,
            stop: Stop::Never,
            clip: c,
            pixel: argb(0xffff_ffff),
        };
        push_text(&mut ops, message, x + 10, y + 10, st);
        proof {
            let xx = rect.x as int;
            let yy = rect.y as int;
            let ww = rect.width as int;
            let hh = rect.height as int;
            let cc = spec_rect_clip(rect);
            let bd = spec_argb(0xff80_8080);
            lemma_clipped_wf(ww);
            lemma_draw_wf(ww);
            let a = fill_clipped(xx, yy, xx + ww, yy + hh, cc, ww, spec_argb(spec_background(level@)));
            let b = fill_clipped(xx, yy, xx + ww, yy + 1, cc, ww, bd);
            let d = fill_clipped(xx, yy + hh - 1, xx + ww, yy + hh, cc, ww, bd);
            let e = fill_clipped(xx, yy, xx + 1, yy + hh, cc, ww, bd);
            let f = fill_clipped(xx + ww - 1, yy, xx + ww, yy + hh, cc, ww, bd);
            let g = text_ops(message@, xx + 10, yy + 10, xx + 10, message_style(rect));
            assert(crate::widget_abi::style_fits(message_style(rect), ww));
            lemma_ops_wf_append(a, b, ww);
            lemma_ops_wf_append(a + b, d, ww);
            lemma_ops_wf_append(a + b + d, e, ww);
            lemma_ops_wf_append(a + b + d + e, f, ww);
            lemma_ops_wf_append(a + b + d + e + f, g, ww);
        }
        ops
    }

    /// Draw the toast.
    pub fn draw(state: &State, fb: &mut [u8], rect: Rect)
        requires
            state.message@.len() < 0x1000_0000,
        ensures
            final(fb)@ == render(old(fb)@, rect.width as int, spec_draw(state.message@, state.level@, rect)),
    {
        let ops = Self::draw_ops(state.message.as_str(), state.level.as_str(), rect);
        paint_all(fb, rect.width, &ops);
    }
}

} // verus!
