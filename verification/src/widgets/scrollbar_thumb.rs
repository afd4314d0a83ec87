//! A scrollbar thumb: a track the height of its rect with the thumb drawn
//! where the widget Thing's fields put it, and a drag on the thumb that
//! scrolls the content in proportion.

use vstd::prelude::*;
use crate::abi::{SymbolMap, Value, ValueView};
use crate::canon::Symbol;
use crate::raster::{ops_wf, paint_all, paint_views, render, Paint, PaintView, Pixel, Rect};
use crate::thingable::{field_i64, get_i64};
use crate::widget_abi::{fill_box, lemma_draw_wf, no_ops, push_fill_box, InputEvent, WidgetEvent};

verus! {

/// The height of the content's viewport (`VPH`).
pub const VIEWPORT_HEIGHT: u32 = 0x565048;

/// The height of the content (`CNH`).
pub const CONTENT_HEIGHT: u32 = 0x434e48;

/// How far the content is scrolled (`SCY`).
pub const SCROLL_Y: u32 = 0x534359;

/// How far the content can be scrolled (`MXS`).
pub const MAX_SCROLL: u32 = 0x4d5853;

/// The first row of the thumb (`THO`).
pub const THUMB_OFFSET: u32 = 0x54484f;

/// The rows of the thumb (`THH`).
pub const THUMB_HEIGHT: u32 = 0x544848;

/// What the thumb last read of its content and track.
#[derive(Clone, Copy)]
pub struct Metrics {
    pub viewport_height: i32,
    pub content_height: i32,
    pub scroll_y: i32,
    pub track_height: i32,
    pub max_scroll: i32,
    pub thumb_offset: i32,
    pub thumb_height: i32,
}

/// A scrollbar thumb's state: whether it is held, where the drag started
/// and from what scroll, its metrics, and its widget Thing.
pub struct State {
    pub pressed: bool,
    pub drag_start_mouse_y: i32,
    pub drag_start_scroll: i32,
    pub metrics: Metrics,
    pub widget_id: u128,
}

/// The colours of the track, the thumb, its lit top row (also the thumb
/// while held) and its shaded bottom row, as `0xAARRGGBB`.
#[derive(Clone, Copy)]
pub struct ThumbColors {
    pub track: u32,
    pub thumb: u32,
    pub hilight: u32,
    pub shadow: u32,
}

/// A drag of the held thumb by `dy` rows: the scroll moves by
/// `dy * max_scroll / max_thumb_offset`, a ratio the caller computes.
#[derive(Clone, Copy, PartialEq, Eq, Structural)]
pub struct ScrollDrag {
    pub dy: i32,
    pub max_scroll: i32,
    pub max_thumb_offset: i32,
}

/// A number field cut to 32 bits, or `old` without one.
pub open spec fn read_field(f: Map<u32, ValueView>, k: u32, old: i32) -> i32 {
    match field_i64(f, k) {
        Some(v) => v as i32,
        None => old,
    }
}

/// The metrics after reading the widget Thing's fields (when it could be
/// read) and the track's height (cut to 32 bits).
pub open spec fn spec_read(m: Metrics, fields: Option<Map<u32, ValueView>>, height: u32) -> Metrics {
    let m2 = match fields {
        Some(f) => Metrics {
            viewport_height: read_field(f, VIEWPORT_HEIGHT, m.viewport_height),
            content_height: read_field(f, CONTENT_HEIGHT, m.content_height),
            scroll_y: read_field(f, SCROLL_Y, m.scroll_y),
            max_scroll: read_field(f, MAX_SCROLL, m.max_scroll),
            thumb_offset: read_field(f, THUMB_OFFSET, m.thumb_offset),
            thumb_height: read_field(f, THUMB_HEIGHT, m.thumb_height),
            ..m
        },
        None => m,
    };
    Metrics { track_height: height as i32, ..m2 }
}

/// A fresh thumb: not held, all metrics zero.
pub open spec fn spec_init(widget_id: u128) -> State {
    State {
        pressed: false,
        drag_start_mouse_y: 0,
        drag_start_scroll: 0,
        metrics: Metrics {
            viewport_height: 0,
            content_height: 0,
            scroll_y: 0,
            track_height: 0,
            max_scroll: 0,
            thumb_offset: 0,
            thumb_height: 0,
        },
        widget_id,
    }
}

/// A colour's pixel, blue byte first.
pub open spec fn bgra(c: u32) -> Pixel {
    Pixel(c as u8, (c >> 8u32) as u8, (c >> 16u32) as u8, (c >> 24u32) as u8)
}

/// A size as a count of columns or rows: none past `i32::MAX`, where the
/// size read as a signed number is negative.
pub open spec fn extent(n: u32) -> int {
    if n <= i32::MAX {
        n as int
    } else {
        0
    }
}

/// The drawing: the track over the whole rect, the thumb over its rows (in
/// the lit colour while held), and, for a thumb of two rows or more, its
/// top row lit and its bottom row shaded.
pub open spec fn spec_draw(s: State, r: Rect, c: ThumbColors) -> Seq<PaintView> {
    let w = extent(r.width);
    let top = s.metrics.thumb_offset as int;
    let end = s.metrics.thumb_offset + s.metrics.thumb_height;
    fill_box(0, 0, w, extent(r.height), r.width as int, bgra(c.track)) + fill_box(
        0,
        top,
        w,
        end,
        r.width as int,
        bgra(if s.pressed { c.hilight } else { c.thumb }),
    ) + if s.metrics.thumb_height > 1 {
        fill_box(0, top, w, top + 1, r.width as int, bgra(c.hilight)) + fill_box(0, end - 1, w, end, r.width as int, bgra(c.shadow))
    } else {
        Seq::empty()
    }
}

/// Metrics whose thumb ends within `i32` (past it the thumb's last row
/// cannot be computed).
pub open spec fn thumb_fits(m: Metrics) -> bool {
    i32::MIN <= m.thumb_offset + m.thumb_height <= i32::MAX
}

/// An event whose arithmetic stays within `i32`: the end of the thumb for
/// a press, the drag distance and the room for the thumb for a move of
/// the held thumb.
pub open spec fn event_fits(s: State, e: WidgetEvent) -> bool {
    match e {
        WidgetEvent::Input(InputEvent::MouseDown { .. }) => thumb_fits(s.metrics),
        WidgetEvent::Input(InputEvent::MouseMove { y, .. }) => s.pressed ==> {
            &&& i32::MIN <= y - s.drag_start_mouse_y <= i32::MAX
            &&& s.metrics.max_scroll > 0 ==> i32::MIN <= s.metrics.track_height - s.metrics.thumb_height <= i32::MAX
        },
        _ => true,
    }
}

/// A thumb after an event, and the drag it asks the caller to turn into a
/// scroll: a press on the thumb holds it, noting where and from what
/// scroll; a release lets go; a move of the held thumb drags it, when
/// there is content to scroll and room for the thumb to move.
pub open spec fn spec_event(s: State, e: WidgetEvent) -> (State, Option<ScrollDrag>) {
    let m = s.metrics;
    match e {
        WidgetEvent::Input(InputEvent::MouseDown { y, .. }) => if y >= m.thumb_offset && y < m.thumb_offset + m.thumb_height {
            (State { pressed: true, drag_start_mouse_y: y, drag_start_scroll: m.scroll_y, ..s }, None)
        } else {
            (s, None)
        },
        WidgetEvent::Input(InputEvent::MouseUp { .. }) => (State { pressed: false, ..s }, None),
        WidgetEvent::Input(InputEvent::MouseMove { y, .. }) => if s.pressed && m.max_scroll > 0 && m.track_height - m.thumb_height > 0 {
            (
                s,
                Some(
                    ScrollDrag {
                        dy: (y - s.drag_start_mouse_y) as i32,
                        max_scroll: m.max_scroll,
                        max_thumb_offset: (m.track_height - m.thumb_height) as i32,
                    },
                ),
            )
        } else {
            (s, None)
        },
        _ => (s, None),
    }
}

/// The scroll a drag moving it by `delta` reaches: the scroll at the drag's
/// start plus `delta`, at most `max_scroll`, then at least 0.
pub open spec fn spec_scroll(s: State, delta: i32) -> int {
    let v = s.drag_start_scroll + delta;
    let a = if v < s.metrics.max_scroll {
        v
    } else {
        s.metrics.max_scroll as int
    };
    if a < 0 {
        0
    } else {
        a
    }
}

fn read_into(f: &SymbolMap, k: u32, old: i32) -> (r: i32)
    ensures
        r == read_field(f@, k, old),
{
    match get_i64(f, k) {
        Some(v) => v as i32,
        None => old,
    }
}

fn bgra_of(c: u32) -> (p: Pixel)
    ensures
        p == bgra(c),
{
    Pixel(c as u8, (c >> 8u32) as u8, (c >> 16u32) as u8, (c >> 24u32) as u8)
}

fn extent_of(n: u32) -> (r: i64)
    ensures
        r == extent(n),
{
    if n <= 0x7fff_ffff {
        n as i64
    } else {
        0
    }
}

pub struct ScrollbarThumbWidget;

impl ScrollbarThumbWidget {
    /// A fresh thumb for the widget Thing `widget_id`.
    pub fn init(widget_id: u128) -> (s: State)
        ensures
            s == spec_init(widget_id),
    {
        State {
            pressed: false,
            drag_start_mouse_y: 0,
            drag_start_scroll: 0,
            metrics: Metrics {
                viewport_height: 0,
                content_height: 0,
                scroll_y: 0,
                track_height: 0,
                max_scroll: 0,
                thumb_offset: 0,
                thumb_height: 0,
            },
            widget_id,
        }
    }

    /// Read the widget Thing's fields (when it could be read) and the
    /// track's height into the metrics.
    pub fn read_metrics(state: &mut State, fields: Option<&SymbolMap>, height: u32)
        ensures
            final(state).metrics == spec_read(old(state).metrics, crate::widget_abi::props_view(fields), height),
            final(state).pressed == old(state).pressed,
            final(state).drag_start_mouse_y == old(state).drag_start_mouse_y,
            final(state).drag_start_scroll == old(state).drag_start_scroll,
            final(state).widget_id == old(state).widget_id,
    {
        if let Some(f) = fields {
            let m = state.metrics;
            state.metrics = Metrics {
                viewport_height: read_into(f, VIEWPORT_HEIGHT, m.viewport_height),
                content_height: read_into(f, CONTENT_HEIGHT, m.content_height),
                scroll_y: read_into(f, SCROLL_Y, m.scroll_y),
                track_height: m.track_height,
                max_scroll: read_into(f, MAX_SCROLL, m.max_scroll),
                thumb_offset: read_into(f, THUMB_OFFSET, m.thumb_offset),
                thumb_height: read_into(f, THUMB_HEIGHT, m.thumb_height),
            };
        }
        state.metrics.track_height = height as i32;
    }

    /// The paint operations of a drawing.
    pub fn draw_ops(state: &State, rect: Rect, colors: &ThumbColors) -> (ops: Vec<Paint>)
        requires
            thumb_fits(state.metrics),
        ensures
            paint_views(ops@) == spec_draw(*state, rect, *colors),
            ops_wf(paint_views(ops@), rect.width as int),
    {
        let w = extent_of(rect.width);
        let h = extent_of(rect.height);
        let top = state.metrics.thumb_offset as i64;
        let end = top + state.metrics.thumb_height as i64;
        let mut ops = no_ops();
        push_fill_box(&mut ops, 0, 0, w, h, rect.width, bgra_of(colors.track));
        let body = if state.pressed {
            colors.hilight
        } else {
            colors.thumb
        };
        push_fill_box(&mut ops, 0, top, w, end, rect.width, bgra_of(body));
        if state.metrics.thumb_height > 1 {
            push_fill_box(&mut ops, 0, top, w, top + 1, rect.width, bgra_of(colors.hilight));
            push_fill_box(&mut ops, 0, end - 1, w, end, rect.width, bgra_of(colors.shadow));
        }
        proof {
            lemma_draw_wf(rect.width as int);
            let s = *state;
            let c = *colors;
            let a = fill_box(0, 0, w as int, h as int, rect.width as int, bgra(c.track));
            let b = fill_box(0, top as int, w as int, end as int, rect.width as int, bgra(body));
            if state.metrics.thumb_height > 1 {
                let lit = fill_box(0, top as int, w as int, top + 1, rect.width as int, bgra(c.hilight));
                let dark = fill_box(0, end - 1, w as int, end as int, rect.width as int, bgra(c.shadow));
                assert(paint_views(ops@) =~= Seq::<PaintView>::empty() + a + b + lit + dark);
                assert(spec_draw(s, rect, c) =~= a + b + (lit + dark));
            } else {
                assert(paint_views(ops@) =~= Seq::<PaintView>::empty() + a + b);
                assert(spec_draw(s, rect, c) =~= a + b + Seq::<PaintView>::empty());
            }
            crate::widget_abi::lemma_ops_wf_append(a, b, rect.width as int);
            if state.metrics.thumb_height > 1 {
                let lit = fill_box(0, top as int, w as int, top + 1, rect.width as int, bgra(c.hilight));
                let dark = fill_box(0, end - 1, w as int, end as int, rect.width as int, bgra(c.shadow));
                crate::widget_abi::lemma_ops_wf_append(a + b, lit, rect.width as int);
                crate::widget_abi::lemma_ops_wf_append(a + b + lit, dark, rect.width as int);
            }
        }
        ops
    }

    /// Read the metrics, then draw the thumb into a buffer `rect.width`
    /// pixels wide.
    pub fn draw(state: &mut State, fields: Option<&SymbolMap>, fb: &mut [u8], rect: Rect, colors: &ThumbColors)
        requires
            thumb_fits(spec_read(old(state).metrics, crate::widget_abi::props_view(fields), rect.height)),
        ensures
            final(state).metrics == spec_read(old(state).metrics, crate::widget_abi::props_view(fields), rect.height),
            final(state).pressed == old(state).pressed,
            final(state).drag_start_mouse_y == old(state).drag_start_mouse_y,
            final(state).drag_start_scroll == old(state).drag_start_scroll,
            final(state).widget_id == old(state).widget_id,
            final(fb)@ == render(old(fb)@, rect.width as int, spec_draw(*final(state), rect, *colors)),
    {
        Self::read_metrics(state, fields, rect.height);
        let ops = Self::draw_ops(state, rect, colors);
        paint_all(fb, rect.width, &ops);
    }

    /// Whether an event's arithmetic stays within `i32`.
    pub fn event_in_range(state: &State, event: WidgetEvent) -> (r: bool)
        ensures
            r == event_fits(*state, event),
    {
        let m = state.metrics;
        match event {
            WidgetEvent::Input(InputEvent::MouseDown { .. }) => {
                let end = m.thumb_offset as i64 + m.thumb_height as i64;
                -0x8000_0000 <= end && end <= 0x7fff_ffff
            },
            WidgetEvent::Input(InputEvent::MouseMove { y, .. }) => {
                if !state.pressed {
                    true
                } else {
                    let dy = y as i64 - state.drag_start_mouse_y as i64;
                    let room = m.track_height as i64 - m.thumb_height as i64;
                    -0x8000_0000 <= dy && dy <= 0x7fff_ffff && (m.max_scroll <= 0 || (-0x8000_0000 <= room && room
                        <= 0x7fff_ffff))
                }
            },
            _ => true,
        }
    }

    /// Handle an event; returns the drag, if any, to turn into a scroll.
    pub fn handle_event(state: &mut State, event: WidgetEvent) -> (r: Option<ScrollDrag>)
        requires
            event_fits(*old(state), event),
        ensures
            (*final(state), r) == spec_event(*old(state), event),
    {
        let m = state.metrics;
        match event {
            WidgetEvent::Input(InputEvent::MouseDown { y, .. }) => {
                if y >= m.thumb_offset && y < m.thumb_offset + m.thumb_height {
                    state.pressed = true;
                    state.drag_start_mouse_y = y;
                    state.drag_start_scroll = m.scroll_y;
                }
                None
            },
            WidgetEvent::Input(InputEvent::MouseUp { .. }) => {
                state.pressed = false;
                None
            },
            WidgetEvent::Input(InputEvent::MouseMove { y, .. }) => {
                if !state.pressed {
                    return None;
                }
                let dy = y - state.drag_start_mouse_y;
                if m.max_scroll <= 0 {
                    return None;
                }
                let room = m.track_height - m.thumb_height;
                if room <= 0 {
                    return None;
                }
                Some(ScrollDrag { dy, max_scroll: m.max_scroll, max_thumb_offset: room })
            },
            _ => None,
        }
    }

    /// The write a drag moving the scroll by `delta` makes to the widget
    /// Thing: its scroll, kept within 0 and the most it can be scrolled
    /// (never past either, however far the drag went).
    pub fn scroll_write(state: &State, delta: i32) -> (r: (u128, SymbolMap))
        requires
            i32::MIN <= state.drag_start_scroll + delta <= i32::MAX,
        ensures
            r.0 == state.widget_id,
            r.1@ == map![SCROLL_Y => ValueView::I64(spec_scroll(*state, delta) as i64)],
            state.metrics.max_scroll >= 0 ==> 0 <= spec_scroll(*state, delta) <= state.metrics.max_scroll,
    {
        let v = state.drag_start_scroll + delta;
        let a = if v < state.metrics.max_scroll {
            v
        } else {
            state.metrics.max_scroll
        };
        let s = if a < 0 {
            0
        } else {
            a
        };
        let mut m = SymbolMap::new();
        m.insert(Symbol(SCROLL_Y), Value::I64(s as i64));
        proof {
            assert(m@ =~= map![SCROLL_Y => ValueView::I64(spec_scroll(*state, delta) as i64)]);
        }
        (state.widget_id, m)
    }
}

} // verus!
