//! The kernel's text console widgets: a flowing text box with dead-key
//! composition, a framed text region, and the glyph trail. Drawing yields the
//! glyphs to paint and where; the caller paints them.

use vstd::prelude::*;

verus! {

/// The colour text is drawn in.
pub const TEXT_COLOR: u32 = 0x00FF00;

/// The colour of a window frame.
pub const FRAME_COLOR: u32 = 0x222244;

/// Width of a glyph cell in pixels.
pub const CELL_WIDTH: usize = 9;

/// A character to paint at a position.
#[derive(Clone, Copy, Debug, PartialEq, Eq, Structural)]
pub struct Glyph {
    pub x: usize,
    pub y: usize,
    pub ch: char,
    pub color: u32,
}

/// A rectangle to fill.
#[derive(Clone, Copy, Debug, PartialEq, Eq, Structural)]
pub struct FillRect {
    pub x: usize,
    pub y: usize,
    pub width: usize,
    pub height: usize,
    pub color: u32,
}

/// Whether a character is an accent that waits for the next one.
pub open spec fn spec_is_dead_key(c: char) -> bool {
    c == '\u{b4}' || c == '`' || c == '^' || c == '~' || c == '"' || c == ','
}

fn is_dead_key(c: char) -> (r: bool)
    ensures
        r == spec_is_dead_key(c),
{
    c == '\u{b4}' || c == '`' || c == '^' || c == '~' || c == '"' || c == ','
}

/// The composed character of the first entry for an accent and a base.
pub open spec fn spec_try_compose(entries: Seq<(char, char, char)>, dead: char, ch: char) -> Option<char>
    decreases entries.len(),
{
    if entries.len() == 0 {
        None
    } else if entries[0].0 == dead && entries[0].1 == ch {
        Some(entries[0].2)
    } else {
        spec_try_compose(entries.drop_first(), dead, ch)
    }
}

/// A table of compositions: an accent and a base character make a third.
pub struct ComposeTable {
    entries: Vec<(char, char, char)>,
}

impl ComposeTable {
    /// The entries, in order.
    pub closed spec fn spec_entries(&self) -> Seq<(char, char, char)> {
        self.entries@
    }

    /// A table with no entries.
    pub fn new() -> (t: ComposeTable)
        ensures
            t.spec_entries() == Seq::<(char, char, char)>::empty(),
    {
        ComposeTable { entries: Vec::new() }
    }

    /// Add an entry after the existing ones.
    pub fn add(&mut self, dead: char, base: char, composed: char)
        ensures
            final(self).spec_entries() == old(self).spec_entries().push((dead, base, composed)),
    {
        self.entries.push((dead, base, composed));
    }

    /// The character an accent and a base make, if the table has one.
    pub fn try_compose(&self, dead: char, ch: char) -> (r: Option<char>)
        ensures
            r == spec_try_compose(self.spec_entries(), dead, ch),
    {
        let mut i: usize = 0;
        proof {
            assert(self.entries@.subrange(0, self.entries@.len() as int) =~= self.entries@);
        }
        while i < self.entries.len()
            invariant
                i <= self.entries@.len(),
                spec_try_compose(self.entries@, dead, ch) == spec_try_compose(self.entries@.subrange(i as int, self.entries@.len() as int), dead, ch),
            decreases self.entries@.len() - i,
        {
            let ghost rest = self.entries@.subrange(i as int, self.entries@.len() as int);
            proof {
                assert(rest.drop_first() =~= self.entries@.subrange(i + 1, self.entries@.len() as int));
            }
            if self.entries[i].0 == dead && self.entries[i].1 == ch {
                return Some(self.entries[i].2);
            }
            i = i + 1;
        }
        proof {
            assert(self.entries@.subrange(i as int, self.entries@.len() as int) =~= Seq::<(char, char, char)>::empty());
        }
        None
    }
}

/// The characters a typed character adds to the text, and the pending accent
/// after it: a pending accent combines with it (or both are kept); an accent
/// waits; anything else is added.
pub open spec fn spec_compose_step(entries: Seq<(char, char, char)>, pending: Option<char>, ch: char) -> (Seq<char>, Option<char>) {
    match pending {
        Some(dead) => match spec_try_compose(entries, dead, ch) {
            Some(c) => (seq![c], None),
            None => (seq![dead, ch], None),
        },
        None => if spec_is_dead_key(ch) {
            (Seq::empty(), Some(ch))
        } else {
            (seq![ch], None)
        },
    }
}

/// The cursor after one more cell: it moves right, and to the start of the
/// next line when the cell would pass the width.
pub open spec fn spec_advance(col: int, row: int, width: int) -> (int, int) {
    if (col + 1) * 9 > width {
        (0, row + 1)
    } else {
        (col + 1, row)
    }
}

/// The cell (column, line) of the `k`-th character of a text box.
pub open spec fn spec_cell(k: nat, width: int) -> (int, int)
    decreases k,
{
    if k == 0 {
        (0, 0)
    } else {
        let p = spec_cell((k - 1) as nat, width);
        spec_advance(p.0, p.1, width)
    }
}

/// A text box that flows its characters across lines.
pub struct TextBox {
    pub x: usize,
    pub y: usize,
    pub width: usize,
    pub height: usize,
    pub line_height: usize,
    pub cursor_col: usize,
    pub cursor_row: usize,
    pub content: Vec<char>,
    pub compose: Option<char>,
    pub table: ComposeTable,
    pub scroll_offset: usize,
    pub cursor_visible: bool,
    pub last_toggle: u64,
}

/// The glyphs for the first `n` characters of a text box: those whose line
/// is within the visible lines from the scroll offset, placed by cell.
pub open spec fn spec_glyphs_upto(
    content: Seq<char>,
    x: int,
    y: int,
    width: int,
    height: int,
    line_height: int,
    scroll: int,
    n: nat,
) -> Seq<Glyph>
    decreases n,
{
    if n == 0 {
        Seq::empty()
    } else {
        let prev = spec_glyphs_upto(content, x, y, width, height, line_height, scroll, (n - 1) as nat);
        let c = spec_cell((n - 1) as nat, width);
        if scroll <= c.1 && c.1 < scroll + height / line_height {
            prev.push(Glyph {
                x: (x + c.0 * 9) as usize,
                y: (y + (c.1 - scroll) * line_height) as usize,
                ch: content[n - 1],
                color: TEXT_COLOR,
            })
        } else {
            prev
        }
    }
}

/// The glyphs a text box shows.
pub open spec fn spec_textbox_glyphs(
    content: Seq<char>,
    x: int,
    y: int,
    width: int,
    height: int,
    line_height: int,
    scroll: int,
) -> Seq<Glyph> {
    spec_glyphs_upto(content, x, y, width, height, line_height, scroll, content.len())
}

/// Whether two text boxes agree in everything but the scroll offset.
pub open spec fn same_but_scroll(a: &TextBox, b: &TextBox) -> bool {
    &&& a.x == b.x && a.y == b.y && a.width == b.width && a.height == b.height
    &&& a.line_height == b.line_height
    &&& a.cursor_col == b.cursor_col && a.cursor_row == b.cursor_row
    &&& a.content@ == b.content@
    &&& a.compose == b.compose
    &&& a.table.spec_entries() == b.table.spec_entries()
    &&& a.cursor_visible == b.cursor_visible && a.last_toggle == b.last_toggle
}

/// Whether two text boxes are the same.
pub open spec fn same_box(a: &TextBox, b: &TextBox) -> bool {
    same_but_scroll(a, b) && a.scroll_offset == b.scroll_offset
}

/// Whether typing can move the cursor on without overflow: the next column
/// times the cell width fits, and a wrap has a next line.
pub open spec fn can_type(t: &TextBox) -> bool {
    &&& (t.cursor_col + 1) * 9 <= usize::MAX
    &&& (t.cursor_col + 1) * 9 > t.width ==> t.cursor_row < usize::MAX
}

/// Whether `b` is `a` after typing `ch`: the text and pending accent as the
/// compose step gives them, the cursor one cell on, everything else kept.
pub open spec fn typed(a: &TextBox, b: &TextBox, ch: char) -> bool {
    &&& b.content@ == a.content@ + spec_compose_step(a.table.spec_entries(), a.compose, ch).0
    &&& b.compose == spec_compose_step(a.table.spec_entries(), a.compose, ch).1
    &&& (b.cursor_col as int, b.cursor_row as int) == spec_advance(a.cursor_col as int, a.cursor_row as int, a.width as int)
    &&& b.x == a.x && b.y == a.y && b.width == a.width && b.height == a.height && b.line_height == a.line_height
    &&& b.scroll_offset == a.scroll_offset
    &&& b.table.spec_entries() == a.table.spec_entries()
    &&& b.cursor_visible == a.cursor_visible && b.last_toggle == a.last_toggle
}

impl TextBox {
    /// A box at a position with a size; lines are 18 pixels apart.
    pub fn new(x: usize, y: usize, width: usize, height: usize) -> (t: TextBox)
        ensures
            t.x == x && t.y == y && t.width == width && t.height == height,
            t.line_height == 18,
            t.cursor_col == 0 && t.cursor_row == 0,
            t.content@ == Seq::<char>::empty(),
            t.compose is None,
            t.table.spec_entries() == Seq::<(char, char, char)>::empty(),
            t.scroll_offset == 0,
            t.cursor_visible,
            t.last_toggle == 0,
    {
        TextBox {
            x,
            y,
            width,
            height,
            line_height: 18,
            cursor_col: 0,
            cursor_row: 0,
            content: Vec::new(),
            compose: None,
            table: ComposeTable::new(),
            scroll_offset: 0,
            cursor_visible: true,
            last_toggle: 0,
        }
    }

    /// Type a character: it is composed with a pending accent, held as an
    /// accent, or added; the cursor moves on one cell either way.
    pub fn insert_char(&mut self, ch: char)
        requires
            can_type(old(self)),
        ensures
            typed(old(self), final(self), ch),
    {
        match self.compose {
            Some(dead) => {
                match self.table.try_compose(dead, ch) {
                    Some(composed) => {
                        self.content.push(composed);
                    },
                    None => {
                        self.content.push(dead);
                        self.content.push(ch);
                    },
                }
                self.compose = None;
            },
            None => {
                if is_dead_key(ch) {
                    self.compose = Some(ch);
                } else {
                    self.content.push(ch);
                }
            },
        }
        proof {
            let st = spec_compose_step(old(self).table.spec_entries(), old(self).compose, ch).0;
            assert(self.content@ =~= old(self).content@ + st);
        }
        self.cursor_col = self.cursor_col + 1;
        if self.cursor_col * 9 > self.width {
            self.cursor_col = 0;
            self.cursor_row = self.cursor_row + 1;
        }
    }

    /// The glyphs to paint.
    pub fn draw(&self) -> (g: Vec<Glyph>)
        requires
            self.line_height > 0,
            self.x + self.width + 9 <= usize::MAX,
            self.y + self.height <= usize::MAX,
            self.scroll_offset + self.height <= usize::MAX,
            self.content@.len() < usize::MAX,
        ensures
            g@ == spec_textbox_glyphs(
                self.content@,
                self.x as int,
                self.y as int,
                self.width as int,
                self.height as int,
                self.line_height as int,
                self.scroll_offset as int,
            ),
    {
        let visible_lines = self.height / self.line_height;
        let start_line = self.scroll_offset;
        let ghost content = self.content@;
        let ghost w = self.width as int;
        proof {
            assert(visible_lines * self.line_height <= self.height) by (nonlinear_arith)
                requires
                    visible_lines == self.height / self.line_height,
                    self.line_height > 0,
            ;
        }
        let mut out: Vec<Glyph> = Vec::new();
        let mut col: usize = 0;
        let mut line: usize = 0;
        let mut i: usize = 0;
        while i < self.content.len()
            invariant
                i <= content.len(),
                content == self.content@,
                content.len() < usize::MAX,
                w == self.width as int,
                visible_lines == self.height / self.line_height,
                visible_lines * self.line_height <= self.height,
                start_line == self.scroll_offset,
                self.line_height > 0,
                self.x + self.width + 9 <= usize::MAX,
                self.y + self.height <= usize::MAX,
                self.scroll_offset + self.height <= usize::MAX,
                (col as int, line as int) == spec_cell(i as nat, w),
                col * 9 <= self.width,
                line <= i,
                out@ == spec_glyphs_upto(content, self.x as int, self.y as int, w, self.height as int, self.line_height as int, start_line as int, i as nat),
            decreases content.len() - i,
        {
            let ch = self.content[i];
            if line >= start_line && line < start_line + visible_lines {
                let rel = line - start_line;
                proof {
                    assert(rel * self.line_height < visible_lines * self.line_height) by (nonlinear_arith)
                        requires
                            rel < visible_lines,
                            self.line_height > 0,
                    ;
                }
                let gx = self.x + col * 9;
                let gy = self.y + rel * self.line_height;
                let ghost before = out@;
                out.push(Glyph { x: gx, y: gy, ch, color: TEXT_COLOR });
            }
            col = col + 1;
            if col * 9 > self.width {
                col = 0;
                line = line + 1;
            }
            i = i + 1;
        }
        out
    }

    /// Scroll one line up, stopping at the top.
    pub fn scroll_up(&mut self)
        ensures
            final(self).scroll_offset == (if old(self).scroll_offset > 0 {
                (old(self).scroll_offset - 1) as usize
            } else {
                0
            }),
            same_but_scroll(old(self), final(self)),
    {
        if self.scroll_offset > 0 {
            self.scroll_offset = self.scroll_offset - 1;
        }
    }

    /// Scroll one line down.
    pub fn scroll_down(&mut self)
        requires
            old(self).scroll_offset < usize::MAX,
        ensures
            final(self).scroll_offset == old(self).scroll_offset + 1,
            same_but_scroll(old(self), final(self)),
    {
        self.scroll_offset = self.scroll_offset + 1;
    }
}

/// A framed window of the console.
#[derive(Clone, Copy, Debug, PartialEq, Eq, Structural)]
pub struct Window {
    pub x: usize,
    pub y: usize,
    pub width: usize,
    pub height: usize,
}

impl Window {
    /// A window at a position with a size.
    pub fn new(x: usize, y: usize, width: usize, height: usize) -> (w: Window)
        ensures
            w == (Window { x, y, width, height }),
    {
        Window { x, y, width, height }
    }

    /// The rectangle to fill for the window.
    pub fn draw(&self) -> (r: FillRect)
        ensures
            r == (FillRect { x: self.x, y: self.y, width: self.width, height: self.height, color: FRAME_COLOR }),
    {
        FillRect { x: self.x, y: self.y, width: self.width, height: self.height, color: FRAME_COLOR }
    }
}

/// The characters a key gives under each combination of modifiers.
#[derive(Clone, Copy, Debug, PartialEq, Eq, Structural)]
pub struct KeyMapEntry {
    pub normal: Option<char>,
    pub shifted: Option<char>,
    pub altgr: Option<char>,
    pub shift_altgr: Option<char>,
}

/// The modifier keys held.
#[derive(Clone, Copy, Debug, PartialEq, Eq, Structural)]
pub struct Modifiers {
    pub shift: bool,
    pub altgr: bool,
}

/// The character a key map entry gives under modifiers.
pub open spec fn spec_key_char(e: KeyMapEntry, m: Modifiers) -> Option<char> {
    if m.shift && m.altgr {
        e.shift_altgr
    } else if m.altgr {
        e.altgr
    } else if m.shift {
        e.shifted
    } else {
        e.normal
    }
}

/// A text box inside a window frame, inset by 4 pixels.
pub struct TextRegion {
    pub window: Window,
    pub textbox: TextBox,
}

impl TextRegion {
    /// A region at a position with a size.
    pub fn new(x: usize, y: usize, width: usize, height: usize) -> (r: TextRegion)
        requires
            width >= 8,
            height >= 8,
            x + 4 <= usize::MAX,
            y + 4 <= usize::MAX,
        ensures
            r.window == (Window { x, y, width, height }),
            r.textbox.x == x + 4 && r.textbox.y == y + 4,
            r.textbox.width == width - 8 && r.textbox.height == height - 8,
            r.textbox.line_height == 18 && r.textbox.cursor_col == 0 && r.textbox.cursor_row == 0,
            r.textbox.content@ == Seq::<char>::empty() && r.textbox.compose is None,
            r.textbox.scroll_offset == 0,
            r.textbox.table.spec_entries() == Seq::<(char, char, char)>::empty(),
            r.textbox.cursor_visible && r.textbox.last_toggle == 0,
    {
        let window = Window::new(x, y, width, height);
        let textbox = TextBox::new(x + 4, y + 4, width - 8, height - 8);
        TextRegion { window, textbox }
    }

    /// The frame to fill, then the glyphs of the text.
    pub fn draw(&self) -> (r: (FillRect, Vec<Glyph>))
        requires
            self.textbox.line_height > 0,
            self.textbox.x + self.textbox.width + 9 <= usize::MAX,
            self.textbox.y + self.textbox.height <= usize::MAX,
            self.textbox.scroll_offset + self.textbox.height <= usize::MAX,
            self.textbox.content@.len() < usize::MAX,
        ensures
            r.0 == (FillRect {
                x: self.window.x,
                y: self.window.y,
                width: self.window.width,
                height: self.window.height,
                color: FRAME_COLOR,
            }),
            r.1@ == spec_textbox_glyphs(
                self.textbox.content@,
                self.textbox.x as int,
                self.textbox.y as int,
                self.textbox.width as int,
                self.textbox.height as int,
                self.textbox.line_height as int,
                self.textbox.scroll_offset as int,
            ),
    {
        (self.window.draw(), self.textbox.draw())
    }

    /// Type a key: Enter (keycode 28) types a newline; otherwise the key's
    /// character under the modifiers, if the key is mapped and gives one.
    pub fn insert_key(&mut self, keycode: u8, entry: Option<KeyMapEntry>, modifiers: &Modifiers) -> (r: Option<char>)
        requires
            (keycode == 28 || (entry matches Some(e) && spec_key_char(e, *modifiers) is Some)) ==> can_type(&old(self).textbox),
        ensures
            r == (if keycode == 28 {
                Some('\n')
            } else {
                match entry {
                    Some(e) => spec_key_char(e, *modifiers),
                    None => None,
                }
            }),
            r matches Some(c) ==> typed(&old(self).textbox, &final(self).textbox, c),
            r is None ==> same_box(&old(self).textbox, &final(self).textbox),
            final(self).window == old(self).window,
    {
        if keycode == 28 {
            self.textbox.insert_char('\n');
            return Some('\n');
        }
        let e = match entry {
            Some(e) => e,
            None => {
                return None;
            },
        };
        let ch = if modifiers.shift && modifiers.altgr {
            e.shift_altgr
        } else if modifiers.altgr {
            e.altgr
        } else if modifiers.shift {
            e.shifted
        } else {
            e.normal
        };
        match ch {
            Some(c) => self.textbox.insert_char(c),
            None => {},
        }
        ch
    }

    /// Scroll the text one line up.
    pub fn scroll_up(&mut self)
        ensures
            final(self).textbox.scroll_offset == (if old(self).textbox.scroll_offset > 0 {
                (old(self).textbox.scroll_offset - 1) as usize
            } else {
                0
            }),
            same_but_scroll(&old(self).textbox, &final(self).textbox),
            final(self).window == old(self).window,
    {
        self.textbox.scroll_up();
    }

    /// Scroll the text one line down.
    pub fn scroll_down(&mut self)
        requires
            old(self).textbox.scroll_offset < usize::MAX,
        ensures
            final(self).textbox.scroll_offset == old(self).textbox.scroll_offset + 1,
            same_but_scroll(&old(self).textbox, &final(self).textbox),
            final(self).window == old(self).window,
    {
        self.textbox.scroll_down();
    }
}

/// A trail of typed glyphs drawn as they come.
pub struct GlyphTrail {
    pub x: usize,
    pub y: usize,
    pub cursor: usize,
    pub active_dead_key: Option<char>,
    pub compose_table: ComposeTable,
}

/// The state of a glyph trail.
pub struct TrailView {
    pub x: int,
    pub y: int,
    pub cursor: int,
    pub dead: Option<char>,
}

/// Draw the block for a key whose unshifted character is `normal`: the
/// column is taken before a wrap to the next row (when the column passes the
/// framebuffer width); an accent waits, a pending accent composes with the
/// character or is drawn before it (the cursor then moving on one).
pub open spec fn spec_draw_block(
    t: TrailView,
    entries: Seq<(char, char, char)>,
    fb_width: int,
    normal: Option<char>,
) -> (TrailView, Seq<Glyph>) {
    let cx = t.x + t.cursor * 9;
    let t1 = if cx > t.x + fb_width {
        TrailView { x: 0, y: t.y + 9, ..t }
    } else {
        t
    };
    let cy = t1.y;
    match normal {
        None => (t1, Seq::empty()),
        Some(c) => match t1.dead {
            Some(dead) => match spec_try_compose(entries, dead, c) {
                Some(composed) => (
                    TrailView { dead: None, ..t1 },
                    seq![Glyph { x: cx as usize, y: cy as usize, ch: composed, color: TEXT_COLOR }],
                ),
                None => (
                    TrailView { dead: None, cursor: t1.cursor + 1, ..t1 },
                    seq![Glyph { x: cx as usize, y: cy as usize, ch: dead, color: TEXT_COLOR }].push(
                        Glyph { x: (cx + 9) as usize, y: cy as usize, ch: c, color: TEXT_COLOR },
                    ),
                ),
            },
            None => if spec_is_dead_key(c) {
                (TrailView { dead: Some(c), ..t1 }, Seq::empty())
            } else {
                (t1, seq![Glyph { x: cx as usize, y: cy as usize, ch: c, color: TEXT_COLOR }])
            },
        },
    }
}

impl GlyphTrail {
    /// The position, cursor and pending accent.
    pub open spec fn spec_state(&self) -> TrailView {
        TrailView { x: self.x as int, y: self.y as int, cursor: self.cursor as int, dead: self.active_dead_key }
    }

    /// A trail starting at a position.
    pub fn new(x: usize, y: usize) -> (t: GlyphTrail)
        ensures
            t.spec_state() == (TrailView { x: x as int, y: y as int, cursor: 0, dead: None }),
            t.compose_table.spec_entries() == Seq::<(char, char, char)>::empty(),
    {
        GlyphTrail { x, y, cursor: 0, active_dead_key: None, compose_table: ComposeTable::new() }
    }

    /// Move the cursor on one cell.
    pub fn advance(&mut self)
        requires
            old(self).cursor < usize::MAX,
        ensures
            final(self).spec_state() == (TrailView { cursor: old(self).cursor + 1, ..old(self).spec_state() }),
            final(self).compose_table.spec_entries() == old(self).compose_table.spec_entries(),
    {
        self.cursor = self.cursor + 1;
    }

    /// Draw the block for a key; see `spec_draw_block`.
    pub fn draw_block(&mut self, fb_width: usize, normal: Option<char>) -> (g: Vec<Glyph>)
        requires
            old(self).x + old(self).cursor * 9 + 9 <= usize::MAX,
            old(self).x + fb_width <= usize::MAX,
            old(self).y + 9 <= usize::MAX,
            old(self).cursor < usize::MAX,
        ensures
            (final(self).spec_state(), g@) == spec_draw_block(
                old(self).spec_state(),
                old(self).compose_table.spec_entries(),
                fb_width as int,
                normal,
            ),
            final(self).compose_table.spec_entries() == old(self).compose_table.spec_entries(),
    {
        let cx = self.x + self.cursor * 9;
        if cx > self.x + fb_width {
            self.x = 0;
            self.y = self.y + 9;
        }
        let cy = self.y;
        let mut out: Vec<Glyph> = Vec::new();
        match normal {
            None => {},
            Some(c) => match self.active_dead_key {
                Some(dead) => match self.compose_table.try_compose(dead, c) {
                    Some(composed) => {
                        out.push(Glyph { x: cx, y: cy, ch: composed, color: TEXT_COLOR });
                        self.active_dead_key = None;
                        proof {
                            assert(out@ =~= seq![Glyph { x: cx, y: cy, ch: composed, color: TEXT_COLOR }]);
                        }
                    },
                    None => {
                        let first = Glyph { x: cx, y: cy, ch: dead, color: TEXT_COLOR };
                        proof {
                            assert(out@ =~= Seq::<Glyph>::empty());
                        }
                        out.push(first);
                        proof {
                            assert(out@ =~= seq![first]);
                        }
                        self.advance();
                        proof {
                            assert(out@ =~= seq![first]);
                        }
                        let second = Glyph { x: cx + 9, y: cy, ch: c, color: TEXT_COLOR };
                        out.push(second);
                        self.active_dead_key = None;
                        proof {
                            assert(out@ == seq![first].push(second));
                        }
                    },
                },
                None => if is_dead_key(c) {
                    self.active_dead_key = Some(c);
                } else {
                    out.push(Glyph { x: cx, y: cy, ch: c, color: TEXT_COLOR });
                    proof {
                        assert(out@ =~= seq![Glyph { x: cx, y: cy, ch: c, color: TEXT_COLOR }]);
                    }
                },
            },
        }
        proof {
            if out@.len() == 0 {
                assert(out@ =~= Seq::<Glyph>::empty());
            }
        }
        out
    }
}

} // verus!
