//! The render model: the visible lines of a screen (or of its scrollback) as text
//! plus style spans, ready for the UI.

use vstd::prelude::*;

use super::cell::{Cell, ATTR_BOLD, ATTR_ITALIC, ATTR_UNDERLINE};
use super::screen::{row_text, Screen, ScreenView};
use crate::text::push_char;

verus! {

/// A styled span within a line: columns `start..end` share one style.
#[derive(Debug, Clone, Copy)]
pub struct StyleSpan {
    /// Start column (inclusive).
    pub start: usize,
    /// End column (exclusive).
    pub end: usize,
    /// Foreground color (ARGB).
    pub fg: u32,
    /// Background color (ARGB).
    pub bg: u32,
    pub bold: bool,
    pub italic: bool,
    pub underline: bool,
}

/// The part of a cell's style that the render model carries.
pub open spec fn cell_style(c: Cell) -> (u32, u32, bool, bool, bool) {
    (c.fg, c.bg, c.attrs.has(ATTR_BOLD), c.attrs.has(ATTR_ITALIC), c.attrs.has(ATTR_UNDERLINE))
}

pub open spec fn span_style(s: StyleSpan) -> (u32, u32, bool, bool, bool) {
    (s.fg, s.bg, s.bold, s.italic, s.underline)
}

/// `spans` are the maximal runs of equally styled cells of `cells`: non-empty,
/// contiguous, in order, covering every column, each carrying the style of its cells,
/// and no two neighbours with the same style.
pub open spec fn spans_cover(cells: Seq<Cell>, spans: Seq<StyleSpan>) -> bool {
    &&& (cells.len() == 0 <==> spans.len() == 0)
    &&& spans.len() > 0 ==> spans[0].start == 0 && spans.last().end == cells.len()
    &&& forall|i: int| 0 <= i < spans.len() ==> #[trigger] spans[i].start < spans[i].end <= cells.len()
    &&& forall|i: int, j: int|
        0 <= i && j == i + 1 && j < spans.len() ==> (#[trigger] spans[j]).start == (#[trigger] spans[i]).end
            && span_style(spans[i]) != span_style(spans[j])
    &&& forall|i: int, k: int|
        0 <= i < spans.len() && spans[i].start <= k < spans[i].end ==> cell_style(#[trigger] cells[k])
            == span_style(#[trigger] spans[i])
}

proof fn lemma_cover_extend(cells: Seq<Cell>, i: int, prev: Seq<StyleSpan>, cur: StyleSpan)
    requires
        1 <= i < cells.len(),
        i < usize::MAX,
        cur.end == i,
        cur.start < cur.end,
        spans_cover(cells.subrange(0, i), prev.push(cur)),
        span_style(cur) == cell_style(cells[i]),
    ensures
        spans_cover(cells.subrange(0, i + 1), prev.push(StyleSpan { end: (i + 1) as usize, ..cur })),
{
    let all = prev.push(cur);
    let all2 = prev.push(StyleSpan { end: (i + 1) as usize, ..cur });
    let sub = cells.subrange(0, i);
    let sub1 = cells.subrange(0, i + 1);
    assert forall|j: int, k: int|
        0 <= j < all2.len() && all2[j].start <= k < all2[j].end implies cell_style(#[trigger] sub1[k])
        == span_style(#[trigger] all2[j]) by {
        if j < all.len() - 1 {
            assert(all2[j] == all[j]);
            assert(sub1[k] == sub[k]);
        } else if k < i {
            assert(sub1[k] == sub[k]);
            assert(span_style(all2[j]) == span_style(all[j]));
        } else {
            assert(sub1[k] == cells[i]);
        }
    }
    assert forall|j: int, j1: int|
        0 <= j && j1 == j + 1 && j1 < all2.len() implies (#[trigger] all2[j1]).start == (#[trigger] all2[j]).end
        && span_style(all2[j]) != span_style(all2[j1]) by {
        assert(all2[j] == all[j]);
        assert(all2[j1].start == all[j1].start);
        assert(span_style(all2[j1]) == span_style(all[j1]));
    }
    assert forall|j: int| 0 <= j < all2.len() implies #[trigger] all2[j].start < all2[j].end <= sub1.len() by {
        if j < all.len() - 1 {
            assert(all2[j] == all[j]);
        } else {
            assert(all[j] == cur);
        }
    }
}

proof fn lemma_cover_split(cells: Seq<Cell>, i: int, prev: Seq<StyleSpan>, cur: StyleSpan, next: StyleSpan)
    requires
        1 <= i < cells.len(),
        cur.end == i,
        cur.start < cur.end,
        spans_cover(cells.subrange(0, i), prev.push(cur)),
        span_style(cur) != cell_style(cells[i]),
        next.start == i,
        next.end == i + 1,
        span_style(next) == cell_style(cells[i]),
    ensures
        spans_cover(cells.subrange(0, i + 1), prev.push(cur).push(next)),
{
    let all = prev.push(cur);
    let all2 = all.push(next);
    let sub = cells.subrange(0, i);
    let sub1 = cells.subrange(0, i + 1);
    assert forall|j: int, k: int|
        0 <= j < all2.len() && all2[j].start <= k < all2[j].end implies cell_style(#[trigger] sub1[k])
        == span_style(#[trigger] all2[j]) by {
        if j < all.len() {
            assert(all2[j] == all[j]);
            assert(sub1[k] == sub[k]);
        } else {
            assert(sub1[k] == cells[i]);
        }
    }
    assert forall|j: int, j1: int|
        0 <= j && j1 == j + 1 && j1 < all2.len() implies (#[trigger] all2[j1]).start == (#[trigger] all2[j]).end
        && span_style(all2[j]) != span_style(all2[j1]) by {
        assert(all2[j] == all[j]);
        if j1 < all.len() {
            assert(all2[j1] == all[j1]);
        } else {
            assert(sub[i - 1] == cells[i - 1]);
            assert(cur.start <= i - 1 < cur.end);
            assert(cell_style(sub[i - 1]) == span_style(all[all.len() - 1]));
        }
    }
    assert forall|j: int| 0 <= j < all2.len() implies #[trigger] all2[j].start < all2[j].end <= sub1.len() by {
        if j < all.len() {
            assert(all2[j] == all[j]);
        }
    }
}

/// A single line ready for display.
#[derive(Debug, Clone)]
pub struct RenderLine {
    /// Text content of the line.
    pub text: String,
    /// Style spans for this line.
    pub spans: Vec<StyleSpan>,
}

fn span_for(cell: &Cell, start: usize) -> (s: StyleSpan)
    requires
        start < usize::MAX,
    ensures
        s.start == start,
        s.end == start + 1,
        span_style(s) == cell_style(*cell),
{
    StyleSpan {
        start,
        end: start + 1,
        fg: cell.fg,
        bg: cell.bg,
        bold: cell.attrs.bold(),
        italic: cell.attrs.italic(),
        underline: cell.attrs.underline(),
    }
}

impl RenderLine {
    /// The line for a row of cells: its characters and its style spans.
    pub fn from_cells(cells: &[Cell]) -> (line: Self)
        ensures
            line.text@ == row_text(cells@),
            spans_cover(cells@, line.spans@),
    {
        let mut text = String::new();
        let mut i: usize = 0;
        while i < cells.len()
            invariant
                i <= cells@.len(),
                text@ == row_text(cells@.subrange(0, i as int)),
            decreases cells@.len() - i,
        {
            push_char(&mut text, cells[i].c);
            i = i + 1;
            assert(row_text(cells@.subrange(0, i as int)) =~= row_text(cells@.subrange(0, i - 1)).push(cells@[i - 1].c));
        }
        assert(cells@.subrange(0, cells@.len() as int) =~= cells@);
        let spans = Self::extract_spans(cells);
        RenderLine { text, spans }
    }

    /// The maximal runs of equally styled cells (see `spans_cover`).
    fn extract_spans(cells: &[Cell]) -> (spans: Vec<StyleSpan>)
        ensures
            spans_cover(cells@, spans@),
    {
        let n = cells.len();
        let mut spans: Vec<StyleSpan> = Vec::new();
        if n == 0 {
            return spans;
        }
        let mut cur = span_for(&cells[0], 0);
        let mut i: usize = 1;
        while i < n
            invariant
                n == cells@.len(),
                1 <= i <= n,
                cur.end == i,
                cur.start < cur.end,
                spans_cover(cells@.subrange(0, i as int), spans@.push(cur)),
            decreases n - i,
        {
            let cell = &cells[i];
            let same = cell.fg == cur.fg && cell.bg == cur.bg && cell.attrs.bold() == cur.bold
                && cell.attrs.italic() == cur.italic && cell.attrs.underline() == cur.underline;
            if same {
                proof {
                    lemma_cover_extend(cells@, i as int, spans@, cur);
                }
                cur.end = i + 1;
            } else {
                let next = span_for(cell, i);
                proof {
                    lemma_cover_split(cells@, i as int, spans@, cur, next);
                }
                spans.push(cur);
                cur = next;
            }
            i = i + 1;
        }
        spans.push(cur);
        assert(cells@.subrange(0, n as int) =~= cells@);
        spans
    }
}

/// Renderer output: what gets sent to the UI.
#[derive(Debug)]
pub struct RenderOutput {
    /// Lines ready for display (from the scrollback when scrolled).
    pub lines: Vec<RenderLine>,
    /// Cursor position (row, col) relative to the screen.
    pub cursor: (usize, usize),
    /// Whether the cursor should be drawn.
    pub cursor_visible: bool,
    /// Total lines including scrollback.
    pub total_lines: usize,
    /// Current scroll position (0 = bottom, showing the current screen).
    pub scroll_offset: usize,
}

/// The row shown on display line `i` when scrolled `offset` lines up: the window
/// starts `offset` lines above the first grid row (never above the oldest scrollback
/// line) and runs on into the grid.
pub open spec fn visible_row(s: ScreenView, offset: nat, i: int) -> Seq<Cell> {
    if offset > 0 {
        let start: int = if s.scrollback.len() >= offset { s.scrollback.len() - offset } else { 0 };
        let idx = start + i;
        if idx < s.scrollback.len() {
            s.scrollback[idx]
        } else {
            s.grid[idx - s.scrollback.len()]
        }
    } else {
        s.grid[i]
    }
}

/// Renders a screen, with cursor blink and scroll position.
pub struct Renderer {
    cursor_blink_on: bool,
    scroll_offset: usize,
}

impl Renderer {
    pub closed spec fn blink_on(&self) -> bool {
        self.cursor_blink_on
    }

    pub closed spec fn offset(&self) -> nat {
        self.scroll_offset as nat
    }

    /// A renderer with the cursor shown and no scroll.
    pub fn new() -> (r: Self)
        ensures
            r.blink_on(),
            r.offset() == 0,
    {
        Renderer { cursor_blink_on: true, scroll_offset: 0 }
    }

    /// The current scroll offset (0 = showing the current screen).
    pub fn scroll_offset(&self) -> (o: usize)
        ensures
            o == self.offset(),
    {
        self.scroll_offset
    }

    /// Flips the cursor blink phase.
    pub fn toggle_cursor_blink(&mut self)
        ensures
            final(self).blink_on() == !old(self).blink_on(),
            final(self).offset() == old(self).offset(),
    {
        self.cursor_blink_on = !self.cursor_blink_on;
    }

    pub fn set_scroll_offset(&mut self, offset: usize)
        ensures
            final(self).offset() == offset,
            final(self).blink_on() == old(self).blink_on(),
    {
        self.scroll_offset = offset;
    }

    /// Scrolls up (into the scrollback) by `lines`, at most to `max_scrollback`.
    pub fn scroll_up(&mut self, lines: usize, max_scrollback: usize)
        requires
            old(self).offset() + lines <= usize::MAX,
        ensures
            final(self).offset() == if old(self).offset() + lines < max_scrollback {
                old(self).offset() + lines
            } else {
                max_scrollback as int
            },
            final(self).blink_on() == old(self).blink_on(),
    {
        let up = self.scroll_offset + lines;
        self.scroll_offset = if up < max_scrollback { up } else { max_scrollback };
    }

    /// Scrolls down by `lines`, stopping at the bottom.
    pub fn scroll_down(&mut self, lines: usize)
        ensures
            final(self).offset() == if old(self).offset() >= lines {
                old(self).offset() - lines
            } else {
                0
            },
            final(self).blink_on() == old(self).blink_on(),
    {
        self.scroll_offset = if self.scroll_offset >= lines { self.scroll_offset - lines } else { 0 };
    }

    /// Back to the bottom (the current screen).
    pub fn scroll_to_bottom(&mut self)
        ensures
            final(self).offset() == 0,
            final(self).blink_on() == old(self).blink_on(),
    {
        self.scroll_offset = 0;
    }

    /// The render model of `screen` at the current scroll offset: one line per screen
    /// row (see `visible_row`), the cursor, whether to draw it (blink on and not
    /// scrolled), the total line count and the offset.
    pub fn render(&self, screen: &Screen) -> (out: RenderOutput)
        requires
            screen.wf(),
        ensures
            out.lines@.len() == screen@.rows,
            forall|i: int|
                0 <= i < screen@.rows ==> (#[trigger] out.lines@[i]).text@ == row_text(
                    visible_row(screen@, self.offset(), i),
                ) && spans_cover(visible_row(screen@, self.offset(), i), out.lines@[i].spans@),
            out.cursor == (screen@.cursor_row as usize, screen@.cursor_col as usize),
            out.cursor_visible == (self.blink_on() && self.offset() == 0),
            out.total_lines == screen@.scrollback.len() + screen@.rows,
            out.scroll_offset == self.offset(),
    {
        proof {
            screen.lemma_wf_valid();
        }
        let (_cols, rows) = screen.size();
        let mut lines: Vec<RenderLine> = Vec::new();
        let scrollback_len = screen.scrollback_len();
        let total_lines = scrollback_len + rows;
        let mut i: usize = 0;
        while i < rows
            invariant
                screen.wf(),
                screen@.valid(),
                rows == screen@.rows,
                scrollback_len == screen@.scrollback.len(),
                i <= rows,
                lines@.len() == i,
                forall|j: int|
                    0 <= j < i ==> (#[trigger] lines@[j]).text@ == row_text(visible_row(screen@, self.offset(), j))
                        && spans_cover(visible_row(screen@, self.offset(), j), lines@[j].spans@),
            decreases rows - i,
        {
            let line = if self.scroll_offset > 0 {
                let scroll_start = if scrollback_len >= self.scroll_offset {
                    scrollback_len - self.scroll_offset
                } else {
                    0
                };
                let line_idx = scroll_start + i;
                if line_idx < scrollback_len {
                    match screen.get_scrollback_line(scrollback_len - 1 - line_idx) {
                        Some(cells) => RenderLine::from_cells(cells.as_slice()),
                        None => RenderLine { text: String::new(), spans: Vec::new() },
                    }
                } else {
                    match screen.get_row(line_idx - scrollback_len) {
                        Some(cells) => RenderLine::from_cells(cells.as_slice()),
                        None => RenderLine { text: String::new(), spans: Vec::new() },
                    }
                }
            } else {
                match screen.get_row(i) {
                    Some(cells) => RenderLine::from_cells(cells.as_slice()),
                    None => RenderLine { text: String::new(), spans: Vec::new() },
                }
            };
            lines.push(line);
            i = i + 1;
        }
        let (cursor_row, cursor_col) = screen.cursor();
        RenderOutput {
            lines,
            cursor: (cursor_row, cursor_col),
            cursor_visible: self.cursor_blink_on && self.scroll_offset == 0,
            total_lines,
            scroll_offset: self.scroll_offset,
        }
    }
}

impl Default for Renderer {
    fn default() -> (r: Self)
        ensures
            r.blink_on(),
            r.offset() == 0,
    {
        Renderer::new()
    }
}

/// What is shown when scrolled `offset` lines back (at most the whole scrollback):
/// with no offset the grid itself; otherwise the last `offset` scrollback lines come
/// first, oldest at the top, followed by the grid from its first row. Scrolling one
/// more line back moves every shown line one display row down.
pub proof fn lemma_visible_rows(s: ScreenView, offset: nat, i: int)
    requires
        s.valid(),
        0 <= i < s.rows,
        offset <= s.scrollback.len(),
    ensures
        offset == 0 ==> visible_row(s, offset, i) == s.grid[i],
        0 < offset && i < offset ==> visible_row(s, offset, i) == s.scrollback[s.scrollback.len() - offset + i],
        0 < offset && i >= offset ==> visible_row(s, offset, i) == s.grid[i - offset],
        offset + 1 <= s.scrollback.len() && i + 1 < s.rows ==> visible_row(s, offset + 1, i + 1) == visible_row(s, offset, i),
{
}

} // verus!
