//! One character grid: a rectangular cell buffer with cursor position and
//! window-positioning metadata, updated by the line-grid protocol events.

use vstd::prelude::*;

verus! {

/// One cell of a grid: a character and the highlight id it is drawn with.
#[derive(Clone, Copy, PartialEq, Eq, Debug)]
pub struct Cell {
    pub ch: char,
    pub hl: i64,
}

/// The content every never-written cell shows: a space in the default
/// highlight.
pub open spec fn spec_blank() -> Cell {
    Cell { ch: ' ', hl: 0 }
}

pub fn blank_cell() -> (c: Cell)
    ensures
        c == spec_blank(),
{
    Cell { ch: ' ', hl: 0 }
}

/// Which corner of the anchor a floating grid hangs from.
#[derive(Clone, Copy, PartialEq, Eq, Debug)]
pub enum AnchorCorner {
    NorthWest,
    NorthEast,
    SouthWest,
    SouthEast,
}

/// Positioning metadata of a grid. Cell contents are untouched by any change
/// of this state.
#[derive(Clone, Copy, PartialEq, Eq, Debug)]
#[allow(inconsistent_fields)]
pub enum WinState {
    /// No positioning event seen yet (the root grid stays this way).
    Unpositioned,
    /// Tiled into the layout of its anchor at a fixed rectangle.
    Window { anchor_grid: i64, row: i64, col: i64, width: i64, height: i64 },
    /// Floating, anchored to a corner of another grid. The anchor offsets are
    /// whole cells; fractional offsets are rounded at the decode boundary.
    Float { anchor_grid: i64, corner: AnchorCorner, row: i64, col: i64 },
    /// Shown in its own top-level surface.
    External,
    /// Hidden from the layout.
    Hidden,
    /// The message grid, pinned to a row of the root grid.
    Msg { row: i64, scrolled: bool },
}

pub open spec fn blank_row(w: nat) -> Seq<Cell> {
    Seq::new(w, |c: int| spec_blank())
}

pub open spec fn blank_rows(w: nat, h: nat) -> Seq<Seq<Cell>> {
    Seq::new(h, |r: int| blank_row(w))
}

/// Clamp an event coordinate into `[0, hi]`.
pub open spec fn clamp(v: int, hi: int) -> int {
    if v < 0 {
        0
    } else if v > hi {
        hi
    } else {
        v
    }
}

/// The mathematical model of one grid.
#[verifier::ext_equal]
pub ghost struct GridModel {
    pub width: nat,
    pub height: nat,
    /// Row-major cell contents: `rows[r][c]` is the cell at row `r`, column `c`.
    pub rows: Seq<Seq<Cell>>,
    pub cursor_row: nat,
    pub cursor_col: nat,
    pub win: WinState,
}

impl GridModel {
    pub open spec fn wf(self) -> bool {
        &&& self.rows.len() == self.height
        &&& forall|r: int| 0 <= r < self.height ==> (#[trigger] self.rows[r]).len() == self.width
    }

    pub open spec fn in_bounds(self, r: int, c: int) -> bool {
        0 <= r < self.height && 0 <= c < self.width
    }

    pub open spec fn cell(self, r: int, c: int) -> Cell {
        self.rows[r][c]
    }

    /// `grid_resize`: the buffer is reallocated; the protocol guarantees
    /// nothing about previous content, so every cell starts out blank.
    pub open spec fn resized(self, w: nat, h: nat) -> GridModel {
        GridModel { width: w, height: h, rows: blank_rows(w, h), ..self }
    }

    /// `grid_clear`: every cell back to blank, dimensions kept.
    pub open spec fn cleared(self) -> GridModel {
        GridModel { rows: blank_rows(self.width, self.height), ..self }
    }

    /// `grid_line`: write an expanded run of cells at `row` starting at
    /// `col_start`; whatever falls outside the current bounds is clipped.
    pub open spec fn line_written(self, row: int, col_start: int, run: Seq<Cell>) -> GridModel {
        if 0 <= row < self.height {
            GridModel {
                rows: self.rows.update(
                    row,
                    written_row(self.rows[row], col_start, run),
                ),
                ..self
            }
        } else {
            self
        }
    }

    /// `grid_scroll`: shift the clamped sub-rectangle by `delta` rows. A cell
    /// of the rectangle shows what stood `delta` rows below it if that source
    /// is inside the rectangle, and blank otherwise; nothing outside the
    /// rectangle moves.
    pub open spec fn scrolled(self, top: int, bot: int, left: int, right: int, delta: int) -> GridModel {
        let t = clamp(top, self.height as int);
        let b = clamp(bot, self.height as int);
        let l = clamp(left, self.width as int);
        let rt = clamp(right, self.width as int);
        GridModel {
            rows: Seq::new(
                self.rows.len(),
                |r: int|
                    if t <= r < b {
                        Seq::new(
                            self.rows[r].len(),
                            |c: int|
                                if l <= c < rt {
                                    if t <= r + delta < b {
                                        self.rows[r + delta][c]
                                    } else {
                                        spec_blank()
                                    }
                                } else {
                                    self.rows[r][c]
                                },
                        )
                    } else {
                        self.rows[r]
                    },
            ),
            ..self
        }
    }

    /// `grid_cursor_goto`: move the cursor.
    pub open spec fn cursor_moved(self, r: nat, c: nat) -> GridModel {
        GridModel { cursor_row: r, cursor_col: c, ..self }
    }

    /// Any of the window-positioning events: metadata only.
    pub open spec fn with_win(self, w: WinState) -> GridModel {
        GridModel { win: w, ..self }
    }
}

/// The model of a grid as its first `grid_resize` creates it: all blank, the
/// cursor parked at the origin, no positioning state.
pub open spec fn fresh_grid_model(w: nat, h: nat) -> GridModel {
    GridModel {
        width: w,
        height: h,
        rows: blank_rows(w, h),
        cursor_row: 0,
        cursor_col: 0,
        win: WinState::Unpositioned,
    }
}

/// One row after a run was written over it: inside the run's clipped span the
/// run's cells, elsewhere the old ones.
pub open spec fn written_row(old_row: Seq<Cell>, col_start: int, run: Seq<Cell>) -> Seq<Cell> {
    Seq::new(
        old_row.len(),
        |c: int|
            if col_start <= c < col_start + run.len() {
                run[c - col_start]
            } else {
                old_row[c]
            },
    )
}

/// One grid of the store.
pub struct Grid {
    pub id: i64,
    pub width: usize,
    pub height: usize,
    pub rows: Vec<Vec<Cell>>,
    pub cursor_row: usize,
    pub cursor_col: usize,
    pub win: WinState,
}

impl View for Grid {
    type V = GridModel;

    open spec fn view(&self) -> GridModel {
        GridModel {
            width: self.width as nat,
            height: self.height as nat,
            rows: self.rows@.map_values(|v: Vec<Cell>| v@),
            cursor_row: self.cursor_row as nat,
            cursor_col: self.cursor_col as nat,
            win: self.win,
        }
    }
}

fn blank_vec_row(w: usize) -> (r: Vec<Cell>)
    ensures
        r@ == blank_row(w as nat),
{
    let mut r: Vec<Cell> = Vec::new();
    let mut c: usize = 0;
    while c < w
        invariant
            c <= w,
            r@.len() == c,
            forall|j: int| 0 <= j < c ==> r@[j] == spec_blank(),
        decreases w - c,
    {
        r.push(blank_cell());
        c = c + 1;
    }
    proof {
        assert(r@ =~= blank_row(w as nat));
    }
    r
}

fn blank_vec_rows(w: usize, h: usize) -> (rs: Vec<Vec<Cell>>)
    ensures
        rs@.map_values(|v: Vec<Cell>| v@) == blank_rows(w as nat, h as nat),
{
    let mut rs: Vec<Vec<Cell>> = Vec::new();
    let mut r: usize = 0;
    while r < h
        invariant
            r <= h,
            rs@.len() == r,
            forall|j: int| 0 <= j < r ==> (#[trigger] rs@[j])@ == blank_row(w as nat),
        decreases h - r,
    {
        rs.push(blank_vec_row(w));
        r = r + 1;
    }
    proof {
        assert(rs@.map_values(|v: Vec<Cell>| v@) =~= blank_rows(w as nat, h as nat));
    }
    rs
}

fn copy_row(src: &Vec<Cell>) -> (r: Vec<Cell>)
    ensures
        r@ == src@,
{
    let mut r: Vec<Cell> = Vec::new();
    let mut i: usize = 0;
    while i < src.len()
        invariant
            i <= src@.len(),
            r@ == src@.take(i as int),
        decreases src@.len() - i,
    {
        r.push(src[i]);
        proof {
            assert(r@ =~= src@.take(i + 1 as int));
        }
        i = i + 1;
    }
    proof {
        assert(src@.take(src@.len() as int) =~= src@);
    }
    r
}

impl Grid {
    /// The dimension bounds every operation keeps: they let event coordinates,
    /// which arrive as protocol integers, be compared without overflow.
    pub open spec fn wf(self) -> bool {
        &&& self@.wf()
        &&& self.width <= i64::MAX
        &&& self.height <= i64::MAX
    }

    /// A fresh grid, as created by the first `grid_resize` for its id.
    pub fn new(id: i64, width: i64, height: i64) -> (g: Grid)
        requires
            0 <= width <= usize::MAX,
            0 <= height <= usize::MAX,
        ensures
            g.wf(),
            g.id == id,
            g@ == fresh_grid_model(width as nat, height as nat),
    {
        let w = width as usize;
        let h = height as usize;
        Grid {
            id,
            width: w,
            height: h,
            rows: blank_vec_rows(w, h),
            cursor_row: 0,
            cursor_col: 0,
            win: WinState::Unpositioned,
        }
    }

    /// `grid_resize` on an existing id: reallocate the buffer; everything
    /// starts out blank, positioning and cursor state are kept.
    pub fn resize(&mut self, width: i64, height: i64)
        requires
            old(self).wf(),
            0 <= width <= usize::MAX,
            0 <= height <= usize::MAX,
        ensures
            final(self).wf(),
            final(self).id == old(self).id,
            final(self)@ == old(self)@.resized(width as nat, height as nat),
    {
        let w = width as usize;
        let h = height as usize;
        self.width = w;
        self.height = h;
        self.rows = blank_vec_rows(w, h);
        proof {
            assert(self@ =~~= old(self)@.resized(width as nat, height as nat));
        }
    }

    /// `grid_clear`: reset every cell to blank.
    pub fn clear(&mut self)
        requires
            old(self).wf(),
        ensures
            final(self).wf(),
            final(self).id == old(self).id,
            final(self)@ == old(self)@.cleared(),
    {
        self.rows = blank_vec_rows(self.width, self.height);
        proof {
            assert(self@ =~~= old(self)@.cleared());
        }
    }

    /// `grid_line` after run expansion: write `run` at `row` from `col_start`;
    /// out-of-bounds parts are clipped, never an error.
    pub fn write_line(&mut self, row: i64, col_start: i64, run: &Vec<Cell>)
        requires
            old(self).wf(),
            0 <= row,
            0 <= col_start,
        ensures
            final(self).wf(),
            final(self).id == old(self).id,
            final(self)@ == old(self)@.line_written(row as int, col_start as int, run@),
    {
        if row >= self.height as i64 {
            proof {
                assert(self@ =~~= old(self)@.line_written(row as int, col_start as int, run@));
            }
            return ;
        }
        let r = row as usize;
        let mut newrow = copy_row(&self.rows[r]);
        // how many run cells fall inside the row, and where the first lands
        let (start, limit): (usize, usize) = if col_start >= self.width as i64 {
            (0, 0)
        } else {
            (col_start as usize, self.width - col_start as usize)
        };
        let mut p: usize = 0;
        while p < run.len() && p < limit
            invariant
                p <= limit,
                p <= run@.len(),
                start + limit <= self.width,
                newrow@.len() == self.width,
                forall|c: int|
                    0 <= c < newrow@.len() ==> #[trigger] newrow@[c] == if start <= c < start + p {
                        run@[c - start]
                    } else {
                        old(self)@.rows[r as int][c]
                    },
            decreases run@.len() - p,
        {
            newrow.set(start + p, run[p]);
            p = p + 1;
        }
        self.rows.set(r, newrow);
        proof {
            let ghost target_row = written_row(old(self)@.rows[r as int], col_start as int, run@);
            assert(old(self)@.rows[r as int].len() == old(self)@.width);
            assert forall|c: int| 0 <= c < newrow@.len() implies newrow@[c] == target_row[c] by {
                if col_start as int <= c < col_start + run@.len() {
                    assert(start as int == col_start as int);
                    assert(newrow@[c] == run@[c - start]);
                }
            }
            assert(newrow@ =~= target_row);
            assert(self@.rows =~= old(self)@.rows.update(r as int, target_row));
            assert(self@ =~~= old(self)@.line_written(row as int, col_start as int, run@));
        }
    }

    /// `grid_cursor_goto`: record the cursor cell.
    pub fn set_cursor(&mut self, row: i64, col: i64)
        requires
            old(self).wf(),
            0 <= row <= usize::MAX,
            0 <= col <= usize::MAX,
        ensures
            final(self).wf(),
            final(self).id == old(self).id,
            final(self)@ == old(self)@.cursor_moved(row as nat, col as nat),
    {
        self.cursor_row = row as usize;
        self.cursor_col = col as usize;
        proof {
            assert(self@ =~~= old(self)@.cursor_moved(row as nat, col as nat));
        }
    }

    /// Any positioning event: update the metadata, touch no cell.
    pub fn set_win(&mut self, w: WinState)
        requires
            old(self).wf(),
        ensures
            final(self).wf(),
            final(self).id == old(self).id,
            final(self)@ == old(self)@.with_win(w),
            *final(self) == (Grid { win: w, ..*old(self) }),
    {
        self.win = w;
        proof {
            assert(self@ =~~= old(self)@.with_win(w));
        }
    }

    /// `grid_scroll`: shift the sub-rectangle by `delta` rows, blanking the
    /// vacated cells; the rectangle is clamped to the grid first.
    pub fn scroll(&mut self, top: i64, bot: i64, left: i64, right: i64, delta: i64)
        requires
            old(self).wf(),
        ensures
            final(self).wf(),
            final(self).id == old(self).id,
            final(self)@ == old(self)@.scrolled(
                top as int,
                bot as int,
                left as int,
                right as int,
                delta as int,
            ),
    {
        let t: usize = clamp_coord(top, self.height);
        let b: usize = clamp_coord(bot, self.height);
        let l: usize = clamp_coord(left, self.width);
        let rt: usize = clamp_coord(right, self.width);
        let ghost target = old(self)@.scrolled(
            top as int,
            bot as int,
            left as int,
            right as int,
            delta as int,
        );
        // keep an unmodified copy to read source rows from
        let mut src_rows: Vec<Vec<Cell>> = Vec::new();
        let mut i: usize = 0;
        while i < self.rows.len()
            invariant
                i <= self.rows@.len(),
                src_rows@.len() == i,
                forall|j: int| 0 <= j < i ==> (#[trigger] src_rows@[j])@ == old(self)@.rows[j],
                *self == *old(self),
            decreases self.rows@.len() - i,
        {
            src_rows.push(copy_row(&self.rows[i]));
            i = i + 1;
        }
        let mut r: usize = t;
        while r < b
            invariant
                t <= r <= b || r == t,
                self.width == old(self).width,
                self.height == old(self).height,
                self.cursor_row == old(self).cursor_row,
                self.cursor_col == old(self).cursor_col,
                self.win == old(self).win,
                self.id == old(self).id,
                self.rows@.len() == old(self)@.rows.len(),
                forall|j: int|
                    0 <= j < self.rows@.len() && !(t <= j < r) ==> (#[trigger] self.rows@[j])@
                        == old(self)@.rows[j],
                forall|j: int|
                    t <= j < r ==> (#[trigger] self.rows@[j])@ == target.rows[j],
            decreases b - r,
        {
            let mut newrow = copy_row(&self.rows[r]);
            let mut c: usize = l;
            while c < rt
                invariant
                    l <= c <= rt || c == l,
                    newrow@.len() == old(self)@.rows[r as int].len(),
                    forall|k: int|
                        0 <= k < newrow@.len() && !(l <= k < c) ==> #[trigger] newrow@[k] == old(
                            self,
                        )@.rows[r as int][k],
                    forall|k: int| l <= k < c ==> #[trigger] newrow@[k] == target.rows[r as int][k],
                decreases rt - c,
            {
                // the source row r + delta, when it lies inside the rectangle
                let cell: Cell = if delta >= 0 {
                    if delta < (b - r) as i64 {
                        let d = delta as usize;
                        src_rows[r + d][c]
                    } else {
                        blank_cell()
                    }
                } else if delta == i64::MIN {
                    blank_cell()
                } else {
                    if -delta <= (r - t) as i64 {
                        let d = (-delta) as usize;
                        src_rows[r - d][c]
                    } else {
                        blank_cell()
                    }
                };
                newrow.set(c, cell);
                c = c + 1;
            }
            proof {
                assert(newrow@ =~= target.rows[r as int]);
            }
            self.rows.set(r, newrow);
            r = r + 1;
        }
        proof {
            assert(self@ =~~= target);
        }
    }
}

/// One cell entry of a `grid_line` event: a character, an optional highlight
/// id (a missing one repeats the previous entry's id; the first entry of a
/// run falls back to the default id `0`), and a repeat count.
#[derive(Clone, Copy, PartialEq, Eq, Debug)]
pub struct InputCell {
    pub ch: char,
    pub hl: Option<i64>,
    pub repeat: usize,
}

pub open spec fn repeat_cell(ch: char, hl: i64, n: nat) -> Seq<Cell> {
    Seq::new(n, |i: int| Cell { ch, hl })
}

/// The run of cells a `grid_line` event's entries stand for, with the
/// repeat-count compression and highlight inheritance resolved.
pub open spec fn spec_expand(cells: Seq<InputCell>, prev_hl: i64) -> Seq<Cell>
    decreases cells.len(),
{
    if cells.len() == 0 {
        Seq::empty()
    } else {
        let hl = match cells[0].hl {
            Some(h) => h,
            None => prev_hl,
        };
        repeat_cell(cells[0].ch, hl, cells[0].repeat as nat) + spec_expand(cells.skip(1), hl)
    }
}

/// Expand a `grid_line` event's compressed cell entries into the run they
/// stand for.
pub fn expand_cells(cells: &Vec<InputCell>) -> (run: Vec<Cell>)
    ensures
        run@ == spec_expand(cells@, 0),
{
    let mut run: Vec<Cell> = Vec::new();
    let mut prev: i64 = 0;
    let mut k: usize = 0;
    proof {
        assert(cells@.skip(0) =~= cells@);
        assert(Seq::<Cell>::empty() + spec_expand(cells@, 0) =~= spec_expand(cells@, 0));
    }
    while k < cells.len()
        invariant
            k <= cells@.len(),
            spec_expand(cells@, 0) == run@ + spec_expand(cells@.skip(k as int), prev),
        decreases cells@.len() - k,
    {
        let entry = cells[k];
        let hl = match entry.hl {
            Some(h) => h,
            None => prev,
        };
        let ghost run0 = run@;
        let mut j: usize = 0;
        while j < entry.repeat
            invariant
                j <= entry.repeat,
                run@ == run0 + repeat_cell(entry.ch, hl, j as nat),
            decreases entry.repeat - j,
        {
            run.push(Cell { ch: entry.ch, hl });
            proof {
                assert(run@ =~= run0 + repeat_cell(entry.ch, hl, (j + 1) as nat));
            }
            j = j + 1;
        }
        proof {
            let rest = cells@.skip(k as int);
            assert(rest[0] == cells@[k as int]);
            assert(rest.skip(1) =~= cells@.skip(k + 1 as int));
            assert(spec_expand(cells@, 0) == run0 + (repeat_cell(entry.ch, hl, entry.repeat as nat)
                + spec_expand(cells@.skip(k + 1 as int), hl)));
            assert(run0 + (repeat_cell(entry.ch, hl, entry.repeat as nat) + spec_expand(
                cells@.skip(k + 1 as int),
                hl,
            )) =~= run@ + spec_expand(cells@.skip(k + 1 as int), hl));
        }
        prev = hl;
        k = k + 1;
    }
    proof {
        assert(cells@.skip(cells@.len() as int) =~= Seq::<InputCell>::empty());
        assert(run@ =~= run@ + spec_expand(cells@.skip(cells@.len() as int), prev));
    }
    run
}

/// One already-expanded line write.
pub ghost struct LineWrite {
    pub row: int,
    pub col_start: int,
    pub run: Seq<Cell>,
}

impl LineWrite {
    /// The write falls entirely inside a `width` by `height` grid.
    pub open spec fn in_bounds(self, width: nat, height: nat) -> bool {
        &&& 0 <= self.row < height
        &&& 0 <= self.col_start
        &&& self.col_start + self.run.len() <= width
    }

    /// The write puts a cell at row `r`, column `c`.
    pub open spec fn covers(self, r: int, c: int) -> bool {
        self.row == r && self.col_start <= c < self.col_start + self.run.len()
    }
}

/// A batch of line writes applied in order.
pub open spec fn apply_writes(g: GridModel, ws: Seq<LineWrite>) -> GridModel
    decreases ws.len(),
{
    if ws.len() == 0 {
        g
    } else {
        apply_writes(g, ws.drop_last()).line_written(
            ws.last().row,
            ws.last().col_start,
            ws.last().run,
        )
    }
}

/// The cell that the latest write covering `(r, c)` put there, if any write
/// did.
pub open spec fn last_written(ws: Seq<LineWrite>, r: int, c: int) -> Option<Cell>
    decreases ws.len(),
{
    if ws.len() == 0 {
        None
    } else if ws.last().covers(r, c) {
        Some(ws.last().run[c - ws.last().col_start])
    } else {
        last_written(ws.drop_last(), r, c)
    }
}

/// Line writes change neither the dimensions nor well-formedness of a grid.
proof fn lemma_apply_writes_shape(g: GridModel, ws: Seq<LineWrite>)
    requires
        g.wf(),
    ensures
        apply_writes(g, ws).wf(),
        apply_writes(g, ws).width == g.width,
        apply_writes(g, ws).height == g.height,
    decreases ws.len(),
{
    if ws.len() > 0 {
        lemma_apply_writes_shape(g, ws.drop_last());
    }
}

/// After a resize, a batch of in-bounds line writes reads back exactly as
/// written: a cell shows the latest run that covered it, and a cell that no
/// run ever covered is blank.
pub proof fn lemma_lines_read_back(
    g: GridModel,
    w: nat,
    h: nat,
    ws: Seq<LineWrite>,
    r: int,
    c: int,
)
    requires
        forall|i: int| 0 <= i < ws.len() ==> (#[trigger] ws[i]).in_bounds(w, h),
        0 <= r < h,
        0 <= c < w,
    ensures
        apply_writes(g.resized(w, h), ws).cell(r, c) == match last_written(ws, r, c) {
            Some(cl) => cl,
            None => spec_blank(),
        },
    decreases ws.len(),
{
    let g0 = g.resized(w, h);
    if ws.len() == 0 {
    } else {
        lemma_lines_read_back(g, w, h, ws.drop_last(), r, c);
        lemma_apply_writes_shape(g0, ws.drop_last());
        assert(ws.last().in_bounds(w, h));
    }
}

/// Whether `(r, c)` lies in the clamped scroll rectangle of `g`.
pub open spec fn in_scroll_rect(
    g: GridModel,
    top: int,
    bot: int,
    left: int,
    right: int,
    r: int,
    c: int,
) -> bool {
    &&& clamp(top, g.height as int) <= r < clamp(bot, g.height as int)
    &&& clamp(left, g.width as int) <= c < clamp(right, g.width as int)
}

/// A scroll never shows content that stood outside the scrolled rectangle:
/// inside it every cell either moved there from a row of the same rectangle or
/// is a vacated, blank cell, and outside it nothing changes at all.
pub proof fn lemma_scroll_confined(
    g: GridModel,
    top: int,
    bot: int,
    left: int,
    right: int,
    delta: int,
)
    requires
        g.wf(),
    ensures
        forall|r: int, c: int|
            g.in_bounds(r, c) && !in_scroll_rect(g, top, bot, left, right, r, c)
                ==> g.scrolled(top, bot, left, right, delta).cell(r, c) == g.cell(r, c),
        forall|r: int, c: int|
            in_scroll_rect(g, top, bot, left, right, r, c) ==> (g.scrolled(
                top,
                bot,
                left,
                right,
                delta,
            ).cell(r, c) == spec_blank() || exists|r2: int|
                clamp(top, g.height as int) <= r2 < clamp(bot, g.height as int) && g.scrolled(
                    top,
                    bot,
                    left,
                    right,
                    delta,
                ).cell(r, c) == g.cell(r2, c)),
        forall|r: int, c: int|
            in_scroll_rect(g, top, bot, left, right, r, c) && !(clamp(top, g.height as int) <= r
                + delta < clamp(bot, g.height as int)) ==> g.scrolled(
                top,
                bot,
                left,
                right,
                delta,
            ).cell(r, c) == spec_blank(),
{
    let s = g.scrolled(top, bot, left, right, delta);
    let t = clamp(top, g.height as int);
    let b = clamp(bot, g.height as int);
    assert forall|r: int, c: int|
        in_scroll_rect(g, top, bot, left, right, r, c) implies (s.cell(r, c) == spec_blank()
        || exists|r2: int| t <= r2 < b && s.cell(r, c) == g.cell(r2, c)) by {
        if t <= r + delta < b {
            assert(t <= r + delta < b && s.cell(r, c) == g.cell(r + delta, c));
        }
    }
}

/// Clamp a protocol coordinate into `[0, hi]`.
fn clamp_coord(v: i64, hi: usize) -> (r: usize)
    requires
        hi <= i64::MAX,
    ensures
        r as int == clamp(v as int, hi as int),
{
    if v < 0 {
        0
    } else if v >= hi as i64 {
        hi
    } else {
        v as usize
    }
}

} // verus!
