//! The screen buffer: a grid of cells, a cursor, the pen used for new characters and
//! a bounded scrollback of the lines that scrolled off the top.

use vstd::prelude::*;

use super::cell::{blank_cell, Cell, CellAttrs, DEFAULT_BG, DEFAULT_FG};
use crate::text::{string_from_chars, trim_end, trim_end_chars};

verus! {

/// How many lines the scrollback keeps.
pub const SCROLLBACK_LIMIT: usize = 10000;

/// A row of `cols` empty cells.
pub open spec fn blank_row(cols: nat) -> Seq<Cell> {
    Seq::new(cols, |_i: int| blank_cell())
}

/// `v` clamped into `0..n` (0 when `n` is 0).
pub open spec fn clamp_index(v: int, n: nat) -> nat {
    if n == 0 {
        0
    } else if v >= n {
        (n - 1) as nat
    } else if v < 0 {
        0
    } else {
        v as nat
    }
}

/// The last `n` elements of `s` (all of `s` when it is shorter).
pub open spec fn keep_last<T>(s: Seq<T>, n: nat) -> Seq<T> {
    if s.len() > n {
        s.subrange(s.len() - n, s.len() as int)
    } else {
        s
    }
}

/// The characters of a row.
pub open spec fn row_text(row: Seq<Cell>) -> Seq<char> {
    row.map_values(|cell: Cell| cell.c)
}

/// Every row's characters followed by a newline, top to bottom.
pub open spec fn grid_text(grid: Seq<Seq<Cell>>) -> Seq<char>
    decreases grid.len(),
{
    if grid.len() == 0 {
        Seq::empty()
    } else {
        grid_text(grid.drop_last()) + row_text(grid.last()) + seq!['\n']
    }
}

/// The abstract state of a screen.
pub struct ScreenView {
    pub grid: Seq<Seq<Cell>>,
    pub cols: nat,
    pub rows: nat,
    pub cursor_row: nat,
    pub cursor_col: nat,
    pub scrollback: Seq<Seq<Cell>>,
    pub attrs: CellAttrs,
    pub fg: u32,
    pub bg: u32,
}

impl ScreenView {
    /// The grid is `rows` rows of `cols` cells, the cursor is inside it (at 0 along an
    /// axis of length 0) and the scrollback holds at most `SCROLLBACK_LIMIT` lines.
    pub open spec fn valid(self) -> bool {
        &&& self.grid.len() == self.rows
        &&& forall|r: int| 0 <= r < self.rows ==> #[trigger] self.grid[r].len() == self.cols
        &&& self.cursor_row == clamp_index(self.cursor_row as int, self.rows)
        &&& self.cursor_col == clamp_index(self.cursor_col as int, self.cols)
        &&& self.scrollback.len() <= SCROLLBACK_LIMIT
        &&& self.rows <= isize::MAX / 24
    }

    /// The cell that a character written with the current pen becomes.
    pub open spec fn pen_cell(self, c: char) -> Cell {
        Cell { c: c, fg: self.fg, bg: self.bg, attrs: self.attrs }
    }

    pub open spec fn with_cursor(self, row: int, col: int) -> Self {
        ScreenView {
            cursor_row: clamp_index(row, self.rows),
            cursor_col: clamp_index(col, self.cols),
            ..self
        }
    }

    /// The top line goes to the scrollback (which keeps its last `SCROLLBACK_LIMIT`
    /// lines) and an empty line comes in at the bottom; an empty grid stays as it is.
    pub open spec fn scrolled_up(self) -> Self {
        if self.grid.len() == 0 {
            self
        } else {
            ScreenView {
                grid: self.grid.drop_first().push(blank_row(self.cols)),
                scrollback: keep_last(self.scrollback.push(self.grid[0]), SCROLLBACK_LIMIT as nat),
                ..self
            }
        }
    }

    /// Column 0 of the next row; past the last row the screen scrolls up one line and
    /// the cursor stays on the last row.
    pub open spec fn after_newline(self) -> Self {
        if self.cursor_row + 1 >= self.rows {
            ScreenView { cursor_row: (self.rows - 1) as nat, cursor_col: 0, ..self.scrolled_up() }
        } else {
            ScreenView { cursor_row: self.cursor_row + 1, cursor_col: 0, ..self }
        }
    }

    /// Whether writing `c` reaches a newline (which needs at least one row).
    pub open spec fn write_needs_newline(self, c: char) -> bool {
        c == '\n' || (c != '\r' && self.cursor_col + 1 >= self.cols)
    }

    /// Writing one character: '\n' is a newline, '\r' returns to column 0, anything
    /// else is stored at the cursor in the current pen and the cursor advances,
    /// wrapping to the next line at the right edge.
    pub open spec fn after_write(self, c: char) -> Self {
        if c == '\n' {
            self.after_newline()
        } else if c == '\r' {
            ScreenView { cursor_col: 0, ..self }
        } else {
            let g = if self.cursor_row < self.rows && self.cursor_col < self.cols {
                self.grid.update(
                    self.cursor_row as int,
                    self.grid[self.cursor_row as int].update(self.cursor_col as int, self.pen_cell(c)),
                )
            } else {
                self.grid
            };
            let s = ScreenView { grid: g, cursor_col: self.cursor_col + 1, ..self };
            if s.cursor_col >= s.cols {
                s.after_newline()
            } else {
                s
            }
        }
    }

    /// The grid resized to `rows` x `cols`: kept cells keep their content, new cells
    /// are empty.
    pub open spec fn resized(self, cols: nat, rows: nat) -> Self {
        ScreenView {
            grid: Seq::new(
                rows,
                |r: int|
                    Seq::new(
                        cols,
                        |c: int|
                            if r < self.rows && c < self.cols {
                                self.grid[r][c]
                            } else {
                                blank_cell()
                            },
                    ),
            ),
            cols: cols,
            rows: rows,
            cursor_row: clamp_index(self.cursor_row as int, rows),
            cursor_col: clamp_index(self.cursor_col as int, cols),
            ..self
        }
    }

    /// Every cell made empty.
    pub open spec fn cleared_all(self) -> Self {
        ScreenView { grid: self.grid_cleared(|r: int, c: int| true), ..self }
    }

    /// The current line made empty from the cursor to its end.
    pub open spec fn cleared_line_from_cursor(self) -> Self {
        ScreenView { grid: self.grid_cleared(on_row_from(self.cursor_row as int, self.cursor_col as int)), ..self }
    }

    /// The whole current line made empty.
    pub open spec fn cleared_line(self) -> Self {
        ScreenView { grid: self.grid_cleared(on_row_from(self.cursor_row as int, 0)), ..self }
    }

    /// The current line made empty from its start up to and including the cursor.
    pub open spec fn cleared_line_to_cursor(self) -> Self {
        ScreenView { grid: self.grid_cleared(on_row_to(self.cursor_row as int, self.cursor_col as int)), ..self }
    }

    /// Everything from the start of the screen up to and including the cursor made
    /// empty: every line above the cursor's, and the cursor's line up to the cursor.
    pub open spec fn cleared_to_cursor(self) -> Self {
        ScreenView {
            grid: self.grid_cleared(
                |r: int, c: int| r < self.cursor_row || (r == self.cursor_row && c <= self.cursor_col),
            ),
            ..self
        }
    }

    /// Everything from the cursor to the end of the screen made empty.
    pub open spec fn cleared_to_end(self) -> Self {
        ScreenView {
            grid: self.grid_cleared(
                |r: int, c: int| (r == self.cursor_row && c >= self.cursor_col) || r > self.cursor_row,
            ),
            ..self
        }
    }

    /// The grid with every cell for which `cleared(r, c)` holds made empty.
    pub open spec fn grid_cleared(self, cleared: spec_fn(int, int) -> bool) -> Seq<Seq<Cell>> {
        Seq::new(
            self.rows,
            |r: int|
                Seq::new(
                    self.cols,
                    |c: int|
                        if cleared(r, c) {
                            blank_cell()
                        } else {
                            self.grid[r][c]
                        },
                ),
        )
    }
}

/// Whether (r, c) lies on `row` at or right of `from`.
pub open spec fn on_row_from(row: int, from: int) -> spec_fn(int, int) -> bool {
    |r: int, c: int| r == row && c >= from
}

/// Whether (r, c) lies on `row` at or left of `to`.
pub open spec fn on_row_to(row: int, to: int) -> spec_fn(int, int) -> bool {
    |r: int, c: int| r == row && c <= to
}

/// The terminal screen buffer.
pub struct Screen {
    cells: Vec<Vec<Cell>>,
    cols: usize,
    rows: usize,
    cursor_row: usize,
    cursor_col: usize,
    scrollback: Vec<Vec<Cell>>,
    scrollback_limit: usize,
    current_attrs: CellAttrs,
    current_fg: u32,
    current_bg: u32,
}

impl View for Screen {
    type V = ScreenView;

    closed spec fn view(&self) -> ScreenView {
        ScreenView {
            grid: rows_of(self.cells@),
            cols: self.cols as nat,
            rows: self.rows as nat,
            cursor_row: self.cursor_row as nat,
            cursor_col: self.cursor_col as nat,
            scrollback: rows_of(self.scrollback@),
            attrs: self.current_attrs,
            fg: self.current_fg,
            bg: self.current_bg,
        }
    }
}

/// The rows of a grid of vectors, each taken by its view.
spec fn rows_of(v: Seq<Vec<Cell>>) -> Seq<Seq<Cell>> {
    Seq::new(v.len(), |i: int| v[i]@)
}

proof fn lemma_rows_update(v: Seq<Vec<Cell>>, i: int, line: Vec<Cell>)
    requires
        0 <= i < v.len(),
    ensures
        rows_of(v.update(i, line)) == rows_of(v).update(i, line@),
{
    assert(rows_of(v.update(i, line)) =~= rows_of(v).update(i, line@));
}

fn blank_row_vec(cols: usize) -> (row: Vec<Cell>)
    ensures
        row@ == blank_row(cols as nat),
{
    let mut row: Vec<Cell> = Vec::new();
    let mut i: usize = 0;
    while i < cols
        invariant
            i <= cols,
            row@ == blank_row(i as nat),
        decreases cols - i,
    {
        row.push(Cell::default());
        i = i + 1;
        assert(row@ =~= blank_row(i as nat));
    }
    row
}

impl Screen {
    /// The well-formedness of a screen: its view is valid and the scrollback limit is
    /// the fixed `SCROLLBACK_LIMIT`.
    pub closed spec fn wf(&self) -> bool {
        &&& self@.valid()
        &&& self.scrollback_limit == SCROLLBACK_LIMIT
    }

    /// A well-formed screen has a valid view.
    pub proof fn lemma_wf_valid(&self)
        requires
            self.wf(),
        ensures
            self@.valid(),
    {
    }

    /// A screen of `rows` empty rows of `cols` cells, the cursor at the top left, the
    /// default pen and an empty scrollback.
    pub fn new(cols: usize, rows: usize) -> (s: Self)
        requires
            rows <= isize::MAX / 24,
        ensures
            s.wf(),
            s@.grid == Seq::new(rows as nat, |_r: int| blank_row(cols as nat)),
            s@.cols == cols,
            s@.rows == rows,
            s@.cursor_row == 0,
            s@.cursor_col == 0,
            s@.scrollback.len() == 0,
            s@.attrs@ == 0,
            s@.fg == DEFAULT_FG,
            s@.bg == DEFAULT_BG,
    {
        let mut cells: Vec<Vec<Cell>> = Vec::new();
        let mut r: usize = 0;
        while r < rows
            invariant
                r <= rows,
                cells@.len() == r,
                forall|i: int| 0 <= i < r ==> #[trigger] cells@[i]@ == blank_row(cols as nat),
            decreases rows - r,
        {
            let row = blank_row_vec(cols);
            cells.push(row);
            r = r + 1;
        }
        assert(rows_of(cells@) =~= Seq::new(rows as nat, |_r: int| blank_row(cols as nat)));
        let s = Screen {
            cells,
            cols,
            rows,
            cursor_row: 0,
            cursor_col: 0,
            scrollback: Vec::new(),
            scrollback_limit: SCROLLBACK_LIMIT,
            current_attrs: CellAttrs::new(),
            current_fg: DEFAULT_FG,
            current_bg: DEFAULT_BG,
        };
        assert(s@.scrollback =~= Seq::<Seq<Cell>>::empty());
        s
    }

    /// The screen size as (columns, rows).
    pub fn size(&self) -> (r: (usize, usize))
        ensures
            r.0 == self@.cols,
            r.1 == self@.rows,
    {
        (self.cols, self.rows)
    }

    /// The cursor position as (row, column).
    pub fn cursor(&self) -> (r: (usize, usize))
        ensures
            r.0 == self@.cursor_row,
            r.1 == self@.cursor_col,
    {
        (self.cursor_row, self.cursor_col)
    }

    /// Moves the cursor, clamping each coordinate into the screen.
    pub fn set_cursor(&mut self, row: usize, col: usize)
        requires
            old(self).wf(),
        ensures
            final(self).wf(),
            final(self)@ == old(self)@.with_cursor(row as int, col as int),
    {
        self.cursor_row = if self.rows == 0 {
            0
        } else if row >= self.rows {
            self.rows - 1
        } else {
            row
        };
        self.cursor_col = if self.cols == 0 {
            0
        } else if col >= self.cols {
            self.cols - 1
        } else {
            col
        };
    }

    /// Moves the cursor by a signed offset, stopping at 0 and at the last row/column.
    pub fn move_cursor(&mut self, delta_row: i32, delta_col: i32)
        requires
            old(self).wf(),
            i32::MIN <= (old(self)@.cursor_row as i32) + delta_row <= i32::MAX,
            i32::MIN <= (old(self)@.cursor_col as i32) + delta_col <= i32::MAX,
        ensures
            final(self).wf(),
            final(self)@ == old(self)@.with_cursor(
                (old(self)@.cursor_row as i32) + delta_row,
                (old(self)@.cursor_col as i32) + delta_col,
            ),
    {
        let r32: i32 = #[verifier::truncate] (self.cursor_row as i32);
        let c32: i32 = #[verifier::truncate] (self.cursor_col as i32);
        let nr = r32 + delta_row;
        let nc = c32 + delta_col;
        let new_row: usize = if nr < 0 { 0 } else { nr as usize };
        let new_col: usize = if nc < 0 { 0 } else { nc as usize };
        self.set_cursor(new_row, new_col);
    }

    /// The cell at (row, col), if inside the screen.
    pub fn get_cell(&self, row: usize, col: usize) -> (r: Option<&Cell>)
        requires
            self.wf(),
        ensures
            row < self@.rows && col < self@.cols ==> r == Some(&self@.grid[row as int][col as int]),
            !(row < self@.rows && col < self@.cols) ==> r is None,
    {
        if row < self.cells.len() {
            let line = &self.cells[row];
            if col < line.len() {
                return Some(&line[col]);
            }
        }
        None
    }

    /// Mutable access to the cell at (`row`, `col`), or `None` outside the grid.
    /// Whatever is written through the reference becomes that cell; nothing else
    /// changes.
    pub fn get_cell_mut(&mut self, row: usize, col: usize) -> (r: Option<&mut Cell>)
        requires
            old(self).wf(),
        ensures
            !(row < old(self)@.rows && col < old(self)@.cols) ==> r is None && final(self)@ == old(self)@,
            row < old(self)@.rows && col < old(self)@.cols ==> r is Some && *r->Some_0 == old(
                self,
            )@.grid[row as int][col as int] && final(self)@ == (ScreenView {
                grid: old(self)@.grid.update(row as int, old(self)@.grid[row as int].update(col as int, *final(r->Some_0))),
                ..old(self)@
            }),
            final(self).wf(),
    {
        proof {
            self.lemma_wf_valid();
        }
        if row < self.cells.len() && col < self.cells[row].len() {
            let ghost c0 = self.cells@;
            let line = &mut self.cells[row];
            proof {
                lemma_rows_update(c0, row as int, *final(line));
            }
            let cell = &mut line[col];
            return Some(cell);
        }
        None
    }

    fn store_cell(&mut self, row: usize, col: usize, cell: Cell)
        requires
            old(self).wf(),
            row < old(self)@.rows,
            col < old(self)@.cols,
        ensures
            final(self).wf(),
            final(self)@ == (ScreenView {
                grid: old(self)@.grid.update(row as int, old(self)@.grid[row as int].update(col as int, cell)),
                ..old(self)@
            }),
    {
        let ghost old_grid = self@.grid;
        self.cells[row].set(col, cell);
        assert(self@.grid =~= old_grid.update(row as int, old_grid[row as int].update(col as int, cell)));
    }

    /// Writes a character at the cursor and advances (see `ScreenView::after_write`).
    pub fn write_char(&mut self, c: char)
        requires
            old(self).wf(),
            old(self)@.write_needs_newline(c) ==> old(self)@.rows > 0,
        ensures
            final(self).wf(),
            final(self)@ == old(self)@.after_write(c),
    {
        if c == '\n' {
            self.newline();
            return;
        }
        if c == '\r' {
            self.cursor_col = 0;
            return;
        }
        let cell = Cell { c, fg: self.current_fg, bg: self.current_bg, attrs: self.current_attrs };
        if self.cursor_row < self.rows && self.cursor_col < self.cols {
            self.store_cell(self.cursor_row, self.cursor_col, cell);
        }
        self.cursor_col = self.cursor_col + 1;
        if self.cursor_col >= self.cols {
            self.newline_unchecked();
        }
    }

    /// The shared tail of `newline`: from any column (even one past the right edge).
    fn newline_unchecked(&mut self)
        requires
            old(self)@.rows > 0,
            old(self).scrollback_limit == SCROLLBACK_LIMIT,
            ({
                let v = old(self)@;
                &&& v.grid.len() == v.rows
                &&& forall|r: int| 0 <= r < v.rows ==> #[trigger] v.grid[r].len() == v.cols
                &&& v.cursor_row == clamp_index(v.cursor_row as int, v.rows)
                &&& v.cursor_col <= v.cols + 1
                &&& v.scrollback.len() <= SCROLLBACK_LIMIT
                &&& v.rows <= isize::MAX / 24
            }),
        ensures
            final(self).wf(),
            final(self)@ == old(self)@.after_newline(),
    {
        self.cursor_col = 0;
        self.cursor_row = self.cursor_row + 1;
        if self.cursor_row >= self.rows {
            self.scroll_up_impl();
            self.cursor_row = self.rows - 1;
        }
    }

    /// Moves to column 0 of the next line, scrolling at the bottom.
    pub fn newline(&mut self)
        requires
            old(self).wf(),
            old(self)@.rows > 0,
        ensures
            final(self).wf(),
            final(self)@ == old(self)@.after_newline(),
    {
        self.newline_unchecked();
    }

    fn scroll_up_impl(&mut self)
        requires
            old(self).scrollback_limit == SCROLLBACK_LIMIT,
            old(self)@.grid.len() == old(self)@.rows,
            forall|r: int| 0 <= r < old(self)@.rows ==> #[trigger] old(self)@.grid[r].len() == old(self)@.cols,
            old(self)@.scrollback.len() <= SCROLLBACK_LIMIT,
        ensures
            final(self)@ == old(self)@.scrolled_up(),
            final(self).scrollback_limit == SCROLLBACK_LIMIT,
    {
        if self.cells.len() > 0 {
            let ghost old_view = self@;
            let top = self.cells.remove(0);
            assert(rows_of(self.cells@) =~= old_view.grid.drop_first());
            self.scrollback.push(top);
            let ghost full = old_view.scrollback.push(old_view.grid[0]);
            let ghost cells_now = self.cells@;
            assert(self@.scrollback =~= full);
            while self.scrollback.len() > self.scrollback_limit
                invariant
                    self.scrollback_limit == SCROLLBACK_LIMIT,
                    self.cells@ == cells_now,
                    self.cols == old_view.cols,
                    self.rows == old_view.rows,
                    self.cursor_row == old_view.cursor_row,
                    self.cursor_col == old_view.cursor_col,
                    self.current_attrs == old_view.attrs,
                    self.current_fg == old_view.fg,
                    self.current_bg == old_view.bg,
                    rows_of(cells_now) =~= old_view.grid.drop_first(),
                    full.len() <= SCROLLBACK_LIMIT + 1,
                    self@.scrollback.len() <= full.len(),
                    self@.scrollback.len() >= SCROLLBACK_LIMIT || self@.scrollback.len() == full.len(),
                    self@.scrollback =~= full.subrange(full.len() - self@.scrollback.len(), full.len() as int),
                decreases self.scrollback.len(),
            {
                let ghost before = self@.scrollback;
                self.scrollback.remove(0);
                assert(self@.scrollback =~= before.drop_first());
            }
            assert(self@.scrollback =~= keep_last(full, SCROLLBACK_LIMIT as nat));
            let row = blank_row_vec(self.cols);
            let ghost mid = rows_of(self.cells@);
            self.cells.push(row);
            assert(rows_of(self.cells@) =~= mid.push(blank_row(old_view.cols)));
            assert(self@.grid =~= old_view.grid.drop_first().push(blank_row(old_view.cols)));
        }
    }

    /// Scrolls the screen up by one line (see `ScreenView::scrolled_up`).
    pub fn scroll_up(&mut self)
        requires
            old(self).wf(),
        ensures
            final(self).wf(),
            final(self)@ == old(self)@.scrolled_up(),
    {
        self.scroll_up_impl();
    }
}


impl Screen {
    fn clear_row_from(&mut self, row: usize, from: usize)
        requires
            old(self).wf(),
            row < old(self)@.rows,
        ensures
            final(self).wf(),
            final(self)@ == (ScreenView { grid: old(self)@.grid_cleared(on_row_from(row as int, from as int)), ..old(self)@ }),
    {
        let ghost v0 = self@;
        let mut c = from;
        if c > self.cols {
            c = self.cols;
        }
        let ghost start = c;
        while c < self.cols
            invariant
                self.wf(),
                row < self@.rows,
                start <= c <= self.cols,
                self@.rows == v0.rows,
                self@.cols == v0.cols,
                self@ == (ScreenView { grid: self@.grid, ..v0 }),
                forall|r: int| 0 <= r < v0.rows && r != row ==> #[trigger] self@.grid[r] == v0.grid[r],
                forall|j: int|
                    0 <= j < v0.cols ==> #[trigger] self@.grid[row as int][j] == if start <= j < c {
                        blank_cell()
                    } else {
                        v0.grid[row as int][j]
                    },
            decreases self.cols - c,
        {
            self.store_cell(row, c, Cell::default());
            c = c + 1;
        }
        assert(self@.grid =~~= v0.grid_cleared(on_row_from(row as int, from as int)));
    }

    fn clear_row_to(&mut self, row: usize, to: usize)
        requires
            old(self).wf(),
            row < old(self)@.rows,
        ensures
            final(self).wf(),
            final(self)@ == (ScreenView { grid: old(self)@.grid_cleared(on_row_to(row as int, to as int)), ..old(self)@ }),
    {
        let ghost v0 = self@;
        let end = if to < self.cols {
            to + 1
        } else {
            self.cols
        };
        let mut c: usize = 0;
        while c < end
            invariant
                self.wf(),
                row < self@.rows,
                c <= end <= self.cols,
                end == if to < v0.cols { to + 1 } else { v0.cols as int },
                self@.rows == v0.rows,
                self@.cols == v0.cols,
                self@ == (ScreenView { grid: self@.grid, ..v0 }),
                forall|r: int| 0 <= r < v0.rows && r != row ==> #[trigger] self@.grid[r] == v0.grid[r],
                forall|j: int|
                    0 <= j < v0.cols ==> #[trigger] self@.grid[row as int][j] == if j < c {
                        blank_cell()
                    } else {
                        v0.grid[row as int][j]
                    },
            decreases end - c,
        {
            self.store_cell(row, c, Cell::default());
            c = c + 1;
        }
        assert(self@.grid =~~= v0.grid_cleared(on_row_to(row as int, to as int)));
    }

    /// Clears the current line from its start up to and including the cursor.
    pub fn clear_line_to_cursor(&mut self)
        requires
            old(self).wf(),
        ensures
            final(self).wf(),
            final(self)@ == old(self)@.cleared_line_to_cursor(),
    {
        if self.cursor_row < self.rows {
            self.clear_row_to(self.cursor_row, self.cursor_col);
        } else {
            assert(self@.grid =~~= self@.grid_cleared(on_row_to(self@.cursor_row as int, self@.cursor_col as int)));
        }
    }

    /// Clears from the start of the screen up to and including the cursor: every
    /// line above the cursor's, and the cursor's line up to the cursor.
    pub fn clear_to_cursor(&mut self)
        requires
            old(self).wf(),
        ensures
            final(self).wf(),
            final(self)@ == old(self)@.cleared_to_cursor(),
    {
        let ghost v0 = self@;
        let mut r: usize = 0;
        while r < self.cursor_row && r < self.rows
            invariant
                self.wf(),
                r <= v0.cursor_row,
                self@ == (ScreenView { grid: self@.grid, ..v0 }),
                forall|i: int, j: int|
                    0 <= i < v0.rows && 0 <= j < v0.cols ==> #[trigger] self@.grid[i][j] == if i < r {
                        blank_cell()
                    } else {
                        v0.grid[i][j]
                    },
            decreases v0.cursor_row - r,
        {
            let ghost before = self@;
            self.clear_row_from(r, 0);
            assert forall|i: int, j: int|
                0 <= i < v0.rows && 0 <= j < v0.cols implies #[trigger] self@.grid[i][j] == if i < r + 1 {
                blank_cell()
            } else {
                v0.grid[i][j]
            } by {
                assert(self@.grid[i][j] == before.grid_cleared(on_row_from(r as int, 0))[i][j]);
            }
            r = r + 1;
        }
        let ghost mid = self@;
        self.clear_line_to_cursor();
        assert forall|i: int, j: int| 0 <= i < v0.rows && 0 <= j < v0.cols implies #[trigger] self@.grid[i][j]
            == v0.grid_cleared(|r: int, c: int| r < v0.cursor_row || (r == v0.cursor_row && c <= v0.cursor_col))[i][j] by {
            assert(self@.grid[i][j] == mid.grid_cleared(on_row_to(v0.cursor_row as int, v0.cursor_col as int))[i][j]);
        }
        assert(self@.grid =~~= v0.grid_cleared(
            |r: int, c: int| r < v0.cursor_row || (r == v0.cursor_row && c <= v0.cursor_col),
        ));
    }

    /// Clears the whole grid (the cursor stays where it is).
    pub fn clear(&mut self)
        requires
            old(self).wf(),
        ensures
            final(self).wf(),
            final(self)@ == old(self)@.cleared_all(),
    {
        let ghost v0 = self@;
        let mut r: usize = 0;
        while r < self.rows
            invariant
                self.wf(),
                r <= self.rows,
                self@ == (ScreenView { grid: self@.grid, ..v0 }),
                forall|i: int, j: int|
                    0 <= i < v0.rows && 0 <= j < v0.cols ==> #[trigger] self@.grid[i][j] == if i < r {
                        blank_cell()
                    } else {
                        v0.grid[i][j]
                    },
            decreases self.rows - r,
        {
            let ghost before = self@;
            self.clear_row_from(r, 0);
            assert forall|i: int, j: int|
                0 <= i < v0.rows && 0 <= j < v0.cols implies #[trigger] self@.grid[i][j] == if i < r + 1 {
                blank_cell()
            } else {
                v0.grid[i][j]
            } by {
                assert(self@.grid[i][j] == before.grid_cleared(on_row_from(r as int, 0))[i][j]);
            }
            r = r + 1;
        }
        assert(self@.grid =~~= v0.grid_cleared(|r: int, c: int| true));
    }

    /// Clears the current line from the cursor to its end.
    pub fn clear_line_from_cursor(&mut self)
        requires
            old(self).wf(),
        ensures
            final(self).wf(),
            final(self)@ == old(self)@.cleared_line_from_cursor(),
    {
        if self.cursor_row < self.rows {
            self.clear_row_from(self.cursor_row, self.cursor_col);
        } else {
            assert(self@.grid =~~= self@.grid_cleared(on_row_from(self@.cursor_row as int, self@.cursor_col as int)));
        }
    }

    /// Clears the whole current line.
    pub fn clear_line(&mut self)
        requires
            old(self).wf(),
        ensures
            final(self).wf(),
            final(self)@ == old(self)@.cleared_line(),
    {
        if self.cursor_row < self.rows {
            self.clear_row_from(self.cursor_row, 0);
        } else {
            assert(self@.grid =~~= self@.grid_cleared(on_row_from(self@.cursor_row as int, 0)));
        }
    }

    /// Clears from the cursor to the end of the screen: the rest of the current line
    /// and every line below it.
    pub fn clear_to_end(&mut self)
        requires
            old(self).wf(),
        ensures
            final(self).wf(),
            final(self)@ == old(self)@.cleared_to_end(),
    {
        let ghost v0 = self@;
        self.clear_line_from_cursor();
        let mut r = self.cursor_row + 1;
        while r < self.rows
            invariant
                self.wf(),
                v0.cursor_row + 1 <= r,
                r <= self.rows || r == v0.cursor_row + 1,
                self@ == (ScreenView { grid: self@.grid, ..v0 }),
                forall|i: int, j: int|
                    0 <= i < v0.rows && 0 <= j < v0.cols ==> #[trigger] self@.grid[i][j] == if (i == v0.cursor_row
                        && j >= v0.cursor_col) || (v0.cursor_row < i < r) {
                        blank_cell()
                    } else {
                        v0.grid[i][j]
                    },
            decreases self.rows - r,
        {
            let ghost before = self@;
            self.clear_row_from(r, 0);
            assert forall|i: int, j: int|
                0 <= i < v0.rows && 0 <= j < v0.cols implies #[trigger] self@.grid[i][j] == if (i == v0.cursor_row
                && j >= v0.cursor_col) || (v0.cursor_row < i < r + 1) {
                blank_cell()
            } else {
                v0.grid[i][j]
            } by {
                assert(self@.grid[i][j] == before.grid_cleared(on_row_from(r as int, 0))[i][j]);
            }
            r = r + 1;
        }
        assert(self@.grid =~~= v0.grid_cleared(
            |r: int, c: int| (r == v0.cursor_row && c >= v0.cursor_col) || r > v0.cursor_row,
        ));
    }

    /// Sets the attributes used for new characters.
    pub fn set_attrs(&mut self, attrs: CellAttrs)
        requires
            old(self).wf(),
        ensures
            final(self).wf(),
            final(self)@ == (ScreenView { attrs: attrs, ..old(self)@ }),
    {
        self.current_attrs = attrs;
    }

    /// Sets the foreground color used for new characters.
    pub fn set_fg(&mut self, color: u32)
        requires
            old(self).wf(),
        ensures
            final(self).wf(),
            final(self)@ == (ScreenView { fg: color, ..old(self)@ }),
    {
        self.current_fg = color;
    }

    /// Sets the background color used for new characters.
    pub fn set_bg(&mut self, color: u32)
        requires
            old(self).wf(),
        ensures
            final(self).wf(),
            final(self)@ == (ScreenView { bg: color, ..old(self)@ }),
    {
        self.current_bg = color;
    }

    /// Resets the pen to no attributes and the default colors.
    pub fn reset_attrs(&mut self)
        requires
            old(self).wf(),
        ensures
            final(self).wf(),
            final(self)@ == (ScreenView { attrs: final(self)@.attrs, fg: DEFAULT_FG, bg: DEFAULT_BG, ..old(self)@ }),
            final(self)@.attrs@ == 0,
    {
        self.current_attrs = CellAttrs::new();
        self.current_fg = DEFAULT_FG;
        self.current_bg = DEFAULT_BG;
    }

    fn resize_row(row: &mut Vec<Cell>, n: usize)
        ensures
            final(row)@ == Seq::new(n as nat, |c: int| if c < old(row)@.len() { old(row)@[c] } else { blank_cell() }),
    {
        let ghost r0 = row@;
        if n <= row.len() {
            row.truncate(n);
        } else {
            while row.len() < n
                invariant
                    r0.len() <= row@.len() <= n,
                    forall|c: int| 0 <= c < row@.len() ==> #[trigger] row@[c] == if c < r0.len() { r0[c] } else { blank_cell() },
                decreases n - row.len(),
            {
                row.push(Cell::default());
            }
        }
        assert(row@ =~= Seq::new(n as nat, |c: int| if c < r0.len() { r0[c] } else { blank_cell() }));
    }

    /// Resizes the screen: each row is cut or padded with empty cells to `new_cols`,
    /// rows are dropped at the bottom or empty rows added, and the cursor is clamped.
    #[verifier::loop_isolation(false)]
    pub fn resize(&mut self, new_cols: usize, new_rows: usize)
        requires
            old(self).wf(),
            new_rows <= isize::MAX / 24,
        ensures
            final(self).wf(),
            final(self)@ == old(self)@.resized(new_cols as nat, new_rows as nat),
    {
        let ghost v0 = self@;
        let mut r: usize = 0;
        while r < self.cells.len()
            invariant
                self.cells@.len() == v0.rows,
                r <= v0.rows,
                self.scrollback@ == old(self).scrollback@,
                self.current_attrs == v0.attrs,
                self.current_fg == v0.fg,
                self.current_bg == v0.bg,
                self.scrollback_limit == SCROLLBACK_LIMIT,
                self.cursor_row == v0.cursor_row,
                self.cursor_col == v0.cursor_col,
                self.rows == v0.rows,
                self.cols == v0.cols,
                forall|i: int| 0 <= i < v0.rows ==> #[trigger] self.cells@[i]@ == if i < r {
                    Seq::new(new_cols as nat, |c: int| if c < v0.cols { v0.grid[i][c] } else { blank_cell() })
                } else {
                    v0.grid[i]
                },
            decreases v0.rows - r,
        {
            let ghost before = self.cells@;
            Self::resize_row(&mut self.cells[r], new_cols);
            assert(self.cells@[r as int]@ =~= Seq::new(new_cols as nat, |c: int| if c < v0.cols { v0.grid[r as int][c] } else { blank_cell() }));
            assert forall|i: int| 0 <= i < v0.rows && i != r implies #[trigger] self.cells@[i] == before[i] by {}
            r = r + 1;
        }
        if new_rows <= self.cells.len() {
            let ghost before = self.cells@;
            self.cells.truncate(new_rows);
            assert forall|i: int| 0 <= i < self.cells@.len() implies #[trigger] self.cells@[i]@ == if i < v0.rows {
                Seq::new(new_cols as nat, |c: int| if c < v0.cols { v0.grid[i][c] } else { blank_cell() })
            } else {
                Seq::new(new_cols as nat, |c: int| blank_cell())
            } by {
                assert(self.cells@[i] == before[i]);
            }
        } else {
            while self.cells.len() < new_rows
                invariant
                    v0.rows <= self.cells@.len() <= new_rows,
                    self.scrollback@ == old(self).scrollback@,
                    self.current_attrs == v0.attrs,
                    self.current_fg == v0.fg,
                    self.current_bg == v0.bg,
                    self.scrollback_limit == SCROLLBACK_LIMIT,
                    self.cursor_row == v0.cursor_row,
                    self.cursor_col == v0.cursor_col,
                    forall|i: int| 0 <= i < self.cells@.len() ==> #[trigger] self.cells@[i]@ == if i < v0.rows {
                        Seq::new(new_cols as nat, |c: int| if c < v0.cols { v0.grid[i][c] } else { blank_cell() })
                    } else {
                        Seq::new(new_cols as nat, |c: int| blank_cell())
                    },
                decreases new_rows - self.cells.len(),
            {
                let row = blank_row_vec(new_cols);
                self.cells.push(row);
                assert(self.cells@[self.cells@.len() - 1]@ =~= Seq::new(new_cols as nat, |c: int| blank_cell()));
            }
        }
        self.cols = new_cols;
        self.rows = new_rows;
        self.cursor_row = if new_rows == 0 {
            0
        } else if self.cursor_row >= new_rows {
            new_rows - 1
        } else {
            self.cursor_row
        };
        self.cursor_col = if new_cols == 0 {
            0
        } else if self.cursor_col >= new_cols {
            new_cols - 1
        } else {
            self.cursor_col
        };
        let ghost target = v0.resized(new_cols as nat, new_rows as nat);
        assert forall|i: int| 0 <= i < new_rows implies #[trigger] self@.grid[i] =~= target.grid[i] by {
            assert(self@.grid[i] == self.cells@[i]@);
        }
        assert(self@.grid =~= target.grid);
    }

    /// The number of lines in the scrollback.
    pub fn scrollback_len(&self) -> (n: usize)
        requires
            self.wf(),
        ensures
            n == self@.scrollback.len(),
    {
        self.scrollback.len()
    }

    /// A scrollback line counted from the most recent one (0); `None` past the oldest.
    pub fn get_scrollback_line(&self, index: usize) -> (r: Option<&Vec<Cell>>)
        requires
            self.wf(),
        ensures
            index < self@.scrollback.len() ==> (r matches Some(line) && line@ == self@.scrollback[self@.scrollback.len() - 1 - index]),
            index >= self@.scrollback.len() ==> r is None,
    {
        let n = self.scrollback.len();
        if index < n {
            Some(&self.scrollback[n - 1 - index])
        } else {
            None
        }
    }

    /// A row of the grid, if it exists.
    pub fn get_row(&self, row: usize) -> (r: Option<&Vec<Cell>>)
        requires
            self.wf(),
        ensures
            row < self@.rows ==> (r matches Some(line) && line@ == self@.grid[row as int]),
            row >= self@.rows ==> r is None,
    {
        if row < self.cells.len() {
            Some(&self.cells[row])
        } else {
            None
        }
    }

    /// The grid as text: each row's characters and a newline, without trailing
    /// whitespace.
    pub fn to_text(&self) -> (t: String)
        requires
            self.wf(),
        ensures
            t@ == trim_end(grid_text(self@.grid)),
    {
        let mut buf: Vec<char> = Vec::new();
        let mut r: usize = 0;
        while r < self.cells.len()
            invariant
                self.wf(),
                r <= self@.rows,
                buf@ == grid_text(self@.grid.subrange(0, r as int)),
            decreases self@.rows - r,
        {
            let line = &self.cells[r];
            let ghost base = buf@;
            let mut c: usize = 0;
            while c < line.len()
                invariant
                    c <= line@.len(),
                    buf@ == base + row_text(line@.subrange(0, c as int)),
                decreases line@.len() - c,
            {
                buf.push(line[c].c);
                c = c + 1;
                assert(row_text(line@.subrange(0, c as int)) =~= row_text(line@.subrange(0, c - 1)).push(line@[c - 1].c));
            }
            buf.push('\n');
            proof {
                let g = self@.grid.subrange(0, r + 1);
                assert(g.drop_last() =~= self@.grid.subrange(0, r as int));
                assert(line@.subrange(0, line@.len() as int) =~= line@);
                assert(g.last() == line@);
            }
            r = r + 1;
        }
        assert(self@.grid.subrange(0, self@.rows as int) =~= self@.grid);
        let trimmed = trim_end_chars(&buf);
        string_from_chars(&trimmed)
    }
}

impl Default for Screen {
    /// An 80 x 24 screen.
    fn default() -> (s: Self)
        ensures
            s.wf(),
            s@.cols == 80,
            s@.rows == 24,
    {
        Screen::new(80, 24)
    }
}

/// Resizing keeps content: every cell inside both the old and the new size is the
/// cell that was there, every other cell of the new grid is empty, the grid has the
/// new size, the scrollback and the pen are untouched, and the cursor moves only as
/// far as needed to stay inside the new size.
pub proof fn lemma_resize_keeps_content(s: ScreenView, cols: nat, rows: nat)
    requires
        s.valid(),
    ensures
        s.resized(cols, rows).rows == rows,
        s.resized(cols, rows).cols == cols,
        s.resized(cols, rows).grid.len() == rows,
        forall|r: int| 0 <= r < rows ==> #[trigger] s.resized(cols, rows).grid[r].len() == cols,
        forall|r: int, c: int|
            0 <= r < rows && 0 <= c < cols && r < s.rows && c < s.cols ==> #[trigger] s.resized(cols, rows).grid[r][c]
                == s.grid[r][c],
        forall|r: int, c: int|
            0 <= r < rows && 0 <= c < cols && (r >= s.rows || c >= s.cols) ==> #[trigger] s.resized(cols, rows).grid[r][c]
                == blank_cell(),
        s.resized(cols, rows).scrollback == s.scrollback,
        s.resized(cols, rows).attrs == s.attrs,
        s.resized(cols, rows).fg == s.fg,
        s.resized(cols, rows).bg == s.bg,
        rows > 0 && s.cursor_row < rows ==> s.resized(cols, rows).cursor_row == s.cursor_row,
        rows > 0 && s.cursor_row >= rows ==> s.resized(cols, rows).cursor_row == rows - 1,
        cols > 0 && s.cursor_col < cols ==> s.resized(cols, rows).cursor_col == s.cursor_col,
        cols > 0 && s.cursor_col >= cols ==> s.resized(cols, rows).cursor_col == cols - 1,
        s.resized(cols, rows).valid() || rows > isize::MAX / 24,
{
}

/// Scrolling up: every line moves up one row, an empty line comes in at the bottom,
/// and the line that left the top is appended to the scrollback, of which at most
/// the last `SCROLLBACK_LIMIT` lines are kept (the oldest dropped first).
pub proof fn lemma_scroll_up(s: ScreenView)
    requires
        s.valid(),
        s.rows > 0,
    ensures
        s.scrolled_up().grid.len() == s.rows,
        forall|r: int| 0 <= r < s.rows - 1 ==> #[trigger] s.scrolled_up().grid[r] == s.grid[r + 1],
        s.scrolled_up().grid[s.rows - 1].len() == s.cols,
        forall|c: int| 0 <= c < s.cols ==> #[trigger] s.scrolled_up().grid[s.rows - 1][c] == blank_cell(),
        s.scrolled_up().scrollback.len() == (if s.scrollback.len() < SCROLLBACK_LIMIT {
            s.scrollback.len() + 1int
        } else {
            SCROLLBACK_LIMIT as int
        }),
        s.scrolled_up().scrollback.last() == s.grid[0],
        forall|i: int| 0 <= i < s.scrolled_up().scrollback.len() - 1 ==> #[trigger] s.scrolled_up().scrollback[i]
            == s.scrollback[s.scrollback.len() - (s.scrolled_up().scrollback.len() - 1) + i],
        s.scrolled_up().cursor_row == s.cursor_row,
        s.scrolled_up().cursor_col == s.cursor_col,
{
    let full = s.scrollback.push(s.grid[0]);
    if full.len() > SCROLLBACK_LIMIT {
        let k = keep_last(full, SCROLLBACK_LIMIT as nat);
        assert(k.last() == full.last());
        assert forall|i: int| 0 <= i < k.len() - 1 implies #[trigger] k[i] == s.scrollback[s.scrollback.len() - (k.len() - 1) + i] by {
            assert(k[i] == full[full.len() - SCROLLBACK_LIMIT + i]);
        }
    }
}

/// Writing a printable character stores it at the cursor in the current pen, leaves
/// every other cell as it was and moves the cursor one column right; at the right
/// edge the cursor goes to the start of the next line, scrolling up one line when it
/// was on the last row (so the character ends up one row higher).
pub proof fn lemma_write_char(s: ScreenView, c: char)
    requires
        s.valid(),
        s.rows > 0,
        s.cols > 0,
        c != '\n',
        c != '\r',
    ensures
        ({
            let row = s.cursor_row as int;
            let col = s.cursor_col as int;
            let t = s.after_write(c);
            &&& col + 1 < s.cols ==> {
                &&& t.grid[row][col] == s.pen_cell(c)
                &&& forall|r: int, k: int| 0 <= r < s.rows && 0 <= k < s.cols && (r != row || k != col) ==> #[trigger] t.grid[r][k] == s.grid[r][k]
                &&& t.cursor_row == row
                &&& t.cursor_col == col + 1
                &&& t.scrollback == s.scrollback
            }
            &&& col + 1 == s.cols && row + 1 < s.rows ==> {
                &&& t.grid[row][col] == s.pen_cell(c)
                &&& t.cursor_row == row + 1
                &&& t.cursor_col == 0
                &&& t.scrollback == s.scrollback
            }
            &&& col + 1 == s.cols && row + 1 == s.rows ==> {
                &&& s.rows >= 2 ==> t.grid[row - 1][col] == s.pen_cell(c)
                &&& t.cursor_row == row
                &&& t.cursor_col == 0
                &&& t.scrollback.last() == (if s.rows == 1 { s.grid[0].update(col, s.pen_cell(c)) } else { s.grid[0] })
            }
        }),
{
    let row = s.cursor_row as int;
    let col = s.cursor_col as int;
    let g = s.grid.update(row, s.grid[row].update(col, s.pen_cell(c)));
    let s1 = ScreenView { grid: g, cursor_col: s.cursor_col + 1, ..s };
    if col + 1 == s.cols && row + 1 == s.rows {
        let full = s1.scrollback.push(s1.grid[0]);
        if full.len() > SCROLLBACK_LIMIT {
            assert(keep_last(full, SCROLLBACK_LIMIT as nat).last() == full.last());
        }
    }
}

} // verus!
