//! A radio button: a round box, a dot when selected, and a label; a click
//! toggles it.

use vstd::prelude::*;
use crate::abi::{SymbolMap, ValueView};
use crate::canon::{Symbol, TEXT};
use crate::raster::{argb, ops_wf, paint_all, paint_views, paint_wf, render, spec_argb, Paint, PaintView, Pixel, Rect};
use crate::records::GraphPropsGetRequest;
use crate::thingable::{field_bool, get_bool};
use crate::widget_abi::{
    lemma_draw_wf, lemma_ops_wf_append, no_ops, prop_text_or, props_view, push_text, text_field, text_ops, text_or,
    Advance, Clip, InputEvent, Stop, TextStyle, WidgetEvent,
};

verus! {

/// Whether a radio button is selected (`SEL`).
pub const SELECTED: u32 = 0x53454c;

/// The radio button widget.
pub struct RadioButtonWidget;

/// Its label, and whether it is selected, pressed and hovered.
pub struct State {
    pub label: String,
    pub selected: bool,
    pub pressed: bool,
    pub hovered: bool,
}

/// What a state denotes.
pub struct StateView {
    pub label: Seq<char>,
    pub selected: bool,
    pub pressed: bool,
    pub hovered: bool,
}

impl View for State {
    type V = StateView;

    open spec fn view(&self) -> StateView {
        StateView { label: self.label@, selected: self.selected, pressed: self.pressed, hovered: self.hovered }
    }
}

/// Half of `v`, rounded toward zero.
pub open spec fn half(v: int) -> int {
    if v >= 0 {
        v / 2
    } else {
        -((-v) / 2)
    }
}

fn half_i64(v: i64) -> (r: i64)
    requires
        v > i64::MIN,
    ensures
        r == half(v as int),
{
    if v >= 0 {
        v / 2
    } else {
        -((-v) / 2)
    }
}

/// A one-pixel fill.
pub open spec fn dot(x: int, y: int, pixel: Pixel) -> PaintView {
    PaintView::Fill { x0: x, y0: y, x1: x + 1, y1: y + 1, pixel }
}

/// The colour of a pixel of the round box at offset `(dx, dy)` from its
/// centre, `d` its squared distance: the outer ring dark at the top and left
/// and white elsewhere, the inside white.
pub open spec fn ring_pixel(dx: int, dy: int, d: int) -> Pixel {
    if d >= 25 {
        if dx < 0 || dy < 0 {
            spec_argb(0xff40_4040)
        } else {
            spec_argb(0xffff_ffff)
        }
    } else {
        spec_argb(0xffff_ffff)
    }
}

/// The pixels of the round box, row by row from cell `k` of its 12 by 12
/// square at column 2, row `top`: those within 6 of the centre.
pub open spec fn circle_ops(top: int, k: int) -> Seq<PaintView>
    decreases 144 - k,
{
    if k < 0 || k >= 144 {
        Seq::empty()
    } else {
        let x = k % 12;
        let y = k / 12;
        let dx = x - 6;
        let dy = y - 6;
        let d = dx * dx + dy * dy;
        if d <= 36 {
            seq![dot(2 + x, top + y, ring_pixel(dx, dy, d))] + circle_ops(top, k + 1)
        } else {
            circle_ops(top, k + 1)
        }
    }
}

/// The black dot of a selected button, from cell `k` of the 5 by 5 square
/// round the box's centre `(8, top + 6)`: the cells within 2 of it.
pub open spec fn dot_ops(top: int, k: int) -> Seq<PaintView>
    decreases 25 - k,
{
    if k < 0 || k >= 25 {
        Seq::empty()
    } else {
        let x = k % 5 - 2;
        let y = k / 5 - 2;
        if x * x + y * y <= 4 {
            seq![dot(8 + x, top + 6 + y, spec_argb(0xff00_0000))] + dot_ops(top, k + 1)
        } else {
            dot_ops(top, k + 1)
        }
    }
}

/// How the label is set: first 8 columns, 8 pixels a character the font has,
/// stopping before one that would pass the right edge, clipped to the
/// buffer's `width` by `height` pixels, in black.
pub open spec fn label_style(rect: Rect) -> TextStyle {
    TextStyle {
        eight_columns: true,
        advance: Advance::FontFixed,
        multiline: false,
        stop: Stop::GlyphPast(rect.width as i64),
        clip: Clip { x0: 0, y0: 0, x1: rect.width as i64, y1: rect.height as i64 },
        pixel: spec_argb(0xff00_0000),
    }
}

/// What a radio button draws (from the buffer's top left corner): grey all
/// over, the round box vertically centred at column 2, the dot when
/// selected, and the label from column 18, vertically centred.
pub open spec fn spec_draw(s: StateView, rect: Rect) -> Seq<PaintView> {
    let top = half(rect.height - 12);
    seq![PaintView::Clear { pixel: spec_argb(0xffc0_c0c0) }] + circle_ops(top, 0) + (if s.selected {
        dot_ops(top, 0)
    } else {
        Seq::empty()
    }) + text_ops(s.label, 18, half(rect.height - 16), 18, label_style(rect))
}

/// What input does: a press arms the button, a release of an armed button
/// toggles it, a move marks it hovered.
pub open spec fn spec_event(s: StateView, e: WidgetEvent) -> StateView {
    match e {
        WidgetEvent::Input(InputEvent::MouseDown { .. }) => StateView { pressed: true, ..s },
        WidgetEvent::Input(InputEvent::MouseUp { .. }) => if s.pressed {
            StateView { selected: !s.selected, pressed: false, ..s }
        } else {
            s
        },
        WidgetEvent::Input(InputEvent::MouseMove { .. }) => StateView { hovered: true, ..s },
        _ => s,
    }
}

proof fn lemma_dots_wf(top: int, k: int, stride: int)
    requires
        top >= 0,
        stride >= 1,
    ensures
        ops_wf(circle_ops(top, k), stride),
        ops_wf(dot_ops(top, k), stride),
    decreases 144 - k,
{
    if 0 <= k < 144 {
        lemma_dots_wf(top, k + 1, stride);
        let all = circle_ops(top, k);
        let rest = circle_ops(top, k + 1);
        assert forall|j: int| 0 <= j < all.len() implies paint_wf(#[trigger] all[j], stride) by {
            if all.len() > rest.len() && j > 0 {
                assert(all[j] == rest[j - 1]);
            }
            if all.len() == rest.len() {
                assert(all[j] == rest[j]);
            }
        }
        if k < 25 {
            let dall = dot_ops(top, k);
            let drest = dot_ops(top, k + 1);
            assert forall|j: int| 0 <= j < dall.len() implies paint_wf(#[trigger] dall[j], stride) by {
                if dall.len() > drest.len() && j > 0 {
                    assert(dall[j] == drest[j - 1]);
                }
                if dall.len() == drest.len() {
                    assert(dall[j] == drest[j]);
                }
            }
        }
    }
}

impl RadioButtonWidget {
    /// What to read from the widget's Thing: its text and whether it is
    /// selected.
    pub fn props_request(widget_id: u128) -> (r: GraphPropsGetRequest)
        ensures
            r.node == widget_id,
            r.keys@ == seq![Symbol(TEXT), Symbol(SELECTED)],
    {
        let mut keys: Vec<Symbol> = Vec::new();
        keys.push(Symbol(TEXT));
        keys.push(Symbol(SELECTED));
        GraphPropsGetRequest { node: widget_id, keys }
    }

    /// The state of a button whose Thing read as `props`: its text (else
    /// `Radio`) and selection (else not selected), neither pressed nor
    /// hovered.
    pub fn init(props: Option<&SymbolMap>) -> (s: State)
        ensures
            s@ == (StateView {
                label: text_or(props_view(props), TEXT, "Radio"@),
                selected: match props {
                    Some(p) => match field_bool(p@, SELECTED) {
                        Some(b) => b,
                        None => false,
                    },
                    None => false,
                },
                pressed: false,
                hovered: false,
            }),
    {
        let label = prop_text_or(props, TEXT, "Radio");
        let selected = match props {
            Some(p) => match get_bool(p, SELECTED) {
                Some(b) => b,
                None => false,
            },
            None => false,
        };
        State { label, selected, pressed: false, hovered: false }
    }

    /// React to input.
    pub fn handle_event(state: &mut State, event: WidgetEvent)
        ensures
            final(state)@ == spec_event(old(state)@, event),
    {
        match event {
            WidgetEvent::Input(InputEvent::MouseDown { .. }) => {
                state.pressed = true;
            },
            WidgetEvent::Input(InputEvent::MouseUp { .. }) => {
                if state.pressed {
                    state.selected = !state.selected;
                    state.pressed = false;
                }
            },
            WidgetEvent::Input(InputEvent::MouseMove { .. }) => {
                state.hovered = true;
            },
            _ => {},
        }
    }

    /// The paint operations of a drawing.
    pub fn draw_ops(state: &State, rect: Rect) -> (ops: Vec<Paint>)
        requires
            rect.height >= 11,
            rect.width >= 1,
            state.label@.len() < 0x1000_0000,
        ensures
            paint_views(ops@) == spec_draw(state@, rect),
            ops_wf(paint_views(ops@), rect.width as int),
    {
        let mut ops = no_ops();
        ops.push(Paint::Clear { pixel: argb(0xffc0_c0c0) });
        let top = half_i64(rect.height as i64 - 12);
        let ghost head = paint_views(ops@);
        proof {
            assert(head =~= seq![PaintView::Clear { pixel: spec_argb(0xffc0_c0c0) }]);
        }
        let mut k: i64 = 0;
        while k < 144
            invariant
                0 <= k <= 144,
                top == half(rect.height - 12),
                0 <= top <= 0x1_0000_0000,
                head + circle_ops(top as int, 0) == paint_views(ops@) + circle_ops(top as int, k as int),
            decreases 144 - k,
        {
            let x = k % 12;
            let y = k / 12;
            let dx = x - 6;
            let dy = y - 6;
            assert(0 <= dx * dx <= 36 && 0 <= dy * dy <= 36) by (nonlinear_arith)
                requires
                    -6 <= dx <= 5,
                    -6 <= dy <= 6,
            ;
            let d = dx * dx + dy * dy;
            if d <= 36 {
                let p = if d >= 25 {
                    if dx < 0 || dy < 0 {
                        argb(0xff40_4040)
                    } else {
                        argb(0xffff_ffff)
                    }
                } else {
                    argb(0xffff_ffff)
                };
                let ghost before = paint_views(ops@);
                ops.push(Paint::Fill { x0: 2 + x, y0: top + y, x1: 3 + x, y1: top + y + 1, pixel: p });
                proof {
                    assert(paint_views(ops@) =~= before.push(dot(2 + x, top + y, ring_pixel(dx as int, dy as int, d as int))));
                    assert(before.push(dot(2 + x, top + y, ring_pixel(dx as int, dy as int, d as int))) + circle_ops(top as int, k + 1)
                        =~= before + (seq![dot(2 + x, top + y, ring_pixel(dx as int, dy as int, d as int))] + circle_ops(top as int, k + 1)));
                }
            }
            k = k + 1;
        }
        proof {
            assert(circle_ops(top as int, 144) =~= Seq::<PaintView>::empty());
            assert(paint_views(ops@) + Seq::<PaintView>::empty() =~= paint_views(ops@));
        }
        let ghost mid = paint_views(ops@);
        if state.selected {
            let mut k: i64 = 0;
            while k < 25
                invariant
                    0 <= k <= 25,
                    top == half(rect.height - 12),
                    0 <= top <= 0x1_0000_0000,
                    mid + dot_ops(top as int, 0) == paint_views(ops@) + dot_ops(top as int, k as int),
                decreases 25 - k,
            {
                let x = k % 5 - 2;
                let y = k / 5 - 2;
                assert(0 <= x * x <= 4 && 0 <= y * y <= 4) by (nonlinear_arith)
                    requires
                        -2 <= x <= 2,
                        -2 <= y <= 2,
                ;
                if x * x + y * y <= 4 {
                    let ghost before = paint_views(ops@);
                    ops.push(Paint::Fill { x0: 8 + x, y0: top + 6 + y, x1: 9 + x, y1: top + 7 + y, pixel: argb(0xff00_0000) });
                    proof {
                        assert(paint_views(ops@) =~= before.push(dot(8 + x, top + 6 + y, spec_argb(0xff00_0000))));
                        assert(before.push(dot(8 + x, top + 6 + y, spec_argb(0xff00_0000))) + dot_ops(top as int, k + 1)
                            =~= before + (seq![dot(8 + x, top + 6 + y, spec_argb(0xff00_0000))] + dot_ops(top as int, k + 1)));
                    }
                }
                k = k + 1;
            }
            proof {
                assert(dot_ops(top as int, 25) =~= Seq::<PaintView>::empty());
                assert(paint_views(ops@) + Seq::<PaintView>::empty() =~= paint_views(ops@));
            }
        } else {
            proof {
                assert(mid + Seq::<PaintView>::empty() =~= mid);
            }
        }
        let st = TextStyle {
            eight_columns: true,
            advance: Advance::FontFixed,
            multiline: false,
            stop: Stop::GlyphPast(rect.width as i64),
            clip: Clip { x0: 0, y0: 0, x1: rect.width as i64, y1: rect.height as i64 },
            pixel: argb(0xff00_0000),
        };
        push_text(&mut ops, state.label.as_str(), 18, half_i64(rect.height as i64 - 16), st);
        proof {
            let w = rect.width as int;
            let dots = if state.selected {
                dot_ops(top as int, 0)
            } else {
                Seq::<PaintView>::empty()
            };
            assert(paint_views(ops@) =~= spec_draw(state@, rect));
            lemma_draw_wf(w);
            lemma_dots_wf(top as int, 0, w);
            assert(ops_wf(head, w));
            lemma_ops_wf_append(head, circle_ops(top as int, 0), w);
            lemma_ops_wf_append(head + circle_ops(top as int, 0), dots, w);
            lemma_ops_wf_append(head + circle_ops(top as int, 0) + dots, text_ops(state.label@, 18, half(rect.height - 16), 18, label_style(rect)), w);
        }
        ops
    }

    /// Draw the button into a buffer `rect.width` pixels wide (at least one
    /// column, and at least 11 rows so that the round box starts at or below
    /// row 0). The round box is not cut to the rect; a pixel of it that does
    /// not fit the buffer is left alone.
    pub fn draw(state: &State, fb: &mut [u8], rect: Rect)
        requires
            rect.height >= 11,
            rect.width >= 1,
            state.label@.len() < 0x1000_0000,
        ensures
            final(fb)@ == render(old(fb)@, rect.width as int, spec_draw(state@, rect)),
    {
        let ops = Self::draw_ops(state, rect);
        paint_all(fb, rect.width, &ops);
    }
}

} // verus!
