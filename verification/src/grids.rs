//! The grid store: every grid the editor addresses, keyed by id. Grid `1` is
//! the root grid and always present; any other id exists only between its
//! first `grid_resize` and its `grid_destroy`.

use vstd::prelude::*;
use crate::event::Fatal;
use crate::grid::{expand_cells, fresh_grid_model, spec_expand, Grid, GridModel, InputCell, WinState};

verus! {

pub open spec fn ids_unique(s: Seq<Grid>) -> bool {
    forall|i: int, j: int| 0 <= i < j < s.len() ==> (#[trigger] s[i]).id != (#[trigger] s[j]).id
}

pub open spec fn has_grid(s: Seq<Grid>, id: i64) -> bool {
    exists|i: int| 0 <= i < s.len() && (#[trigger] s[i]).id == id
}

pub open spec fn grid_index(s: Seq<Grid>, id: i64) -> int {
    choose|i: int| 0 <= i < s.len() && (#[trigger] s[i]).id == id
}

pub open spec fn grid_at(s: Seq<Grid>, id: i64) -> GridModel {
    s[grid_index(s, id)]@
}

/// Whether positioning state `w` anchors its grid to grid `id`.
pub open spec fn spec_anchored_to(w: WinState, id: i64) -> bool {
    match w {
        WinState::Window { anchor_grid, .. } => anchor_grid == id,
        WinState::Float { anchor_grid, .. } => anchor_grid == id,
        _ => false,
    }
}

fn anchored_to(w: &WinState, id: i64) -> (r: bool)
    ensures
        r == spec_anchored_to(*w, id),
{
    match w {
        WinState::Window { anchor_grid, .. } => *anchor_grid == id,
        WinState::Float { anchor_grid, .. } => *anchor_grid == id,
        _ => false,
    }
}

/// In a duplicate-free store the witness index of an id is the only index
/// holding it.
proof fn lemma_grid_index_unique(s: Seq<Grid>, id: i64, i: int)
    requires
        ids_unique(s),
        0 <= i < s.len(),
        s[i].id == id,
    ensures
        grid_index(s, id) == i,
{
    let j = grid_index(s, id);
    if j < i {
        assert(s[j].id != s[i].id);
    } else if j > i {
        assert(s[i].id != s[j].id);
    }
}

/// Replacing the grid in one slot by a grid with the same id changes the view
/// of that id alone.
proof fn lemma_update_frame(s1: Seq<Grid>, s2: Seq<Grid>, i: int, g: Grid)
    requires
        ids_unique(s1),
        0 <= i < s1.len(),
        g.id == s1[i].id,
        s2 == s1.update(i, g),
    ensures
        ids_unique(s2),
        forall|id2: i64| #[trigger] has_grid(s2, id2) == has_grid(s1, id2),
        forall|id2: i64|
            id2 != g.id && has_grid(s1, id2) ==> #[trigger] grid_at(s2, id2) == grid_at(s1, id2),
        has_grid(s2, g.id),
        grid_at(s2, g.id) == g@,
{
    assert forall|id2: i64| #[trigger] has_grid(s2, id2) == has_grid(s1, id2) by {
        if has_grid(s1, id2) {
            let w = grid_index(s1, id2);
            if w == i {
                assert(s2[i].id == id2);
            } else {
                assert(s2[w].id == id2);
            }
        }
        if has_grid(s2, id2) {
            let w = grid_index(s2, id2);
            if w == i {
                assert(s1[i].id == id2);
            } else {
                assert(s1[w].id == id2);
            }
        }
    }
    assert forall|id2: i64|
        id2 != g.id && has_grid(s1, id2) implies #[trigger] grid_at(s2, id2) == grid_at(
        s1,
        id2,
    ) by {
        let w = grid_index(s1, id2);
        lemma_grid_index_unique(s1, id2, w);
        assert(w != i);
        assert(s2[w].id == id2);
        lemma_grid_index_unique(s2, id2, w);
    }
    lemma_grid_index_unique(s2, g.id, i);
}

/// Appending a grid with a fresh id adds that id's view and nothing else.
proof fn lemma_push_frame(s1: Seq<Grid>, s2: Seq<Grid>, g: Grid)
    requires
        ids_unique(s1),
        !has_grid(s1, g.id),
        s2 == s1.push(g),
    ensures
        ids_unique(s2),
        forall|id2: i64| #[trigger] has_grid(s2, id2) == (has_grid(s1, id2) || id2 == g.id),
        forall|id2: i64|
            id2 != g.id && has_grid(s1, id2) ==> #[trigger] grid_at(s2, id2) == grid_at(s1, id2),
        grid_at(s2, g.id) == g@,
{
    assert forall|id2: i64| #[trigger] has_grid(s2, id2) == (has_grid(s1, id2) || id2 == g.id) by {
        if has_grid(s1, id2) {
            let w = grid_index(s1, id2);
            assert(s2[w].id == id2);
        }
        if id2 == g.id {
            assert(s2[s1.len() as int].id == id2);
        }
        if has_grid(s2, id2) && id2 != g.id {
            let w = grid_index(s2, id2);
            assert(w < s1.len());
            assert(s1[w].id == id2);
        }
    }
    assert forall|id2: i64|
        id2 != g.id && has_grid(s1, id2) implies #[trigger] grid_at(s2, id2) == grid_at(
        s1,
        id2,
    ) by {
        let w = grid_index(s1, id2);
        lemma_grid_index_unique(s1, id2, w);
        assert(s2[w].id == id2);
        lemma_grid_index_unique(s2, id2, w);
    }
    lemma_grid_index_unique(s2, g.id, s1.len() as int);
}

/// Removing one slot removes that id's view and nothing else.
proof fn lemma_remove_frame(s1: Seq<Grid>, s2: Seq<Grid>, i: int)
    requires
        ids_unique(s1),
        0 <= i < s1.len(),
        s2 == s1.remove(i),
    ensures
        ids_unique(s2),
        forall|id2: i64|
            #[trigger] has_grid(s2, id2) == (has_grid(s1, id2) && id2 != s1[i].id),
        forall|id2: i64|
            id2 != s1[i].id && has_grid(s1, id2) ==> #[trigger] grid_at(s2, id2) == grid_at(
                s1,
                id2,
            ),
{
    assert forall|id2: i64| #[trigger] has_grid(s2, id2) == (has_grid(s1, id2) && id2
        != s1[i].id) by {
        if has_grid(s1, id2) && id2 != s1[i].id {
            let w = grid_index(s1, id2);
            lemma_grid_index_unique(s1, id2, w);
            if w < i {
                assert(s2[w].id == id2);
            } else {
                assert(s2[w - 1].id == id2);
            }
        }
        if has_grid(s2, id2) {
            let w = grid_index(s2, id2);
            if w < i {
                assert(s1[w].id == id2);
            } else {
                assert(s1[w + 1].id == id2);
            }
            if id2 == s1[i].id {
                if w < i {
                    assert(s1[w].id != s1[i].id);
                } else {
                    assert(s1[i].id != s1[w + 1].id);
                }
            }
        }
    }
    assert forall|id2: i64|
        id2 != s1[i].id && has_grid(s1, id2) implies #[trigger] grid_at(s2, id2) == grid_at(
        s1,
        id2,
    ) by {
        let w = grid_index(s1, id2);
        lemma_grid_index_unique(s1, id2, w);
        if w < i {
            assert(s2[w].id == id2);
            lemma_grid_index_unique(s2, id2, w);
        } else {
            assert(s2[w - 1].id == id2);
            lemma_grid_index_unique(s2, id2, w - 1);
        }
    }
}

/// The store of all grids, plus the current-grid pointer that the latest
/// `grid_cursor_goto` set.
pub struct GridStore {
    pub grids: Vec<Grid>,
    pub current_grid: i64,
}

impl GridStore {
    pub open spec fn wf(self) -> bool {
        &&& ids_unique(self.grids@)
        &&& forall|i: int| 0 <= i < self.grids@.len() ==> (#[trigger] self.grids@[i]).wf()
        &&& has_grid(self.grids@, 1)
    }

    pub open spec fn spec_has(self, id: i64) -> bool {
        has_grid(self.grids@, id)
    }

    pub open spec fn spec_at(self, id: i64) -> GridModel {
        grid_at(self.grids@, id)
    }

    /// A store holding only the root grid, of zero size until the first
    /// resize arrives.
    pub fn new() -> (s: GridStore)
        ensures
            s.wf(),
            s.current_grid == 1,
            s.spec_has(1),
            forall|id: i64| id != 1 ==> !(#[trigger] s.spec_has(id)),
            s.spec_at(1) == fresh_grid_model(0, 0),
    {
        let mut grids: Vec<Grid> = Vec::new();
        let root = Grid::new(1, 0, 0);
        grids.push(root);
        let s = GridStore { grids, current_grid: 1 };
        proof {
            assert(s.grids@[0].id == 1);
            lemma_grid_index_unique(s.grids@, 1, 0);
        }
        s
    }

    fn find(&self, id: i64) -> (r: Option<usize>)
        requires
            self.wf(),
        ensures
            match r {
                Some(i) => i < self.grids@.len() && self.grids@[i as int].id == id
                    && self.spec_has(id) && grid_index(self.grids@, id) == i,
                None => !self.spec_has(id),
            },
    {
        let mut i: usize = 0;
        while i < self.grids.len()
            invariant
                i <= self.grids@.len(),
                forall|j: int| 0 <= j < i ==> (#[trigger] self.grids@[j]).id != id,
            decreases self.grids@.len() - i,
        {
            if self.grids[i].id == id {
                proof {
                    lemma_grid_index_unique(self.grids@, id, i as int);
                }
                return Some(i);
            }
            i = i + 1;
        }
        None
    }

    /// Read access for the renderer: the grid with this id, if it exists.
    pub fn get(&self, id: i64) -> (r: Option<&Grid>)
        requires
            self.wf(),
        ensures
            match r {
                Some(g) => self.spec_has(id) && g.id == id && g@ == self.spec_at(id) && g.wf(),
                None => !self.spec_has(id),
            },
    {
        match self.find(id) {
            Some(i) => Some(&self.grids[i]),
            None => None,
        }
    }

    /// `grid_resize`: create the grid on first sight of the id, otherwise
    /// reallocate its buffer.
    pub fn resize(&mut self, id: i64, width: i64, height: i64)
        requires
            old(self).wf(),
            0 <= width <= usize::MAX,
            0 <= height <= usize::MAX,
        ensures
            final(self).wf(),
            final(self).current_grid == old(self).current_grid,
            forall|id2: i64|
                #[trigger] final(self).spec_has(id2) == (old(self).spec_has(id2) || id2 == id),
            forall|id2: i64|
                id2 != id && old(self).spec_has(id2) ==> #[trigger] final(self).spec_at(id2)
                    == old(self).spec_at(id2),
            final(self).spec_at(id) == if old(self).spec_has(id) {
                old(self).spec_at(id).resized(width as nat, height as nat)
            } else {
                fresh_grid_model(width as nat, height as nat)
            },
    {
        match self.find(id) {
            Some(i) => {
                let mut g = self.grids.remove(i);
                g.resize(width, height);
                self.grids.insert(i, g);
                proof {
                    assert(self.grids@ =~= old(self).grids@.update(i as int, g));
                    lemma_update_frame(old(self).grids@, self.grids@, i as int, g);
                }
            },
            None => {
                let g = Grid::new(id, width, height);
                self.grids.push(g);
                proof {
                    lemma_push_frame(old(self).grids@, self.grids@, g);
                }
            },
        }
    }

    /// `grid_line`: expand the event's compressed cells and write them; an id
    /// no resize created is a protocol violation.
    pub fn line(&mut self, id: i64, row: i64, col_start: i64, cells: &Vec<InputCell>) -> (r: Result<
        (),
        Fatal,
    >)
        requires
            old(self).wf(),
            0 <= row,
            0 <= col_start,
        ensures
            final(self).wf(),
            final(self).current_grid == old(self).current_grid,
            r is Ok <==> old(self).spec_has(id),
            r matches Err(f) ==> f == (Fatal::UnknownGrid { grid: id }) && *final(self) == *old(
                self,
            ),
            forall|id2: i64| #[trigger] final(self).spec_has(id2) == old(self).spec_has(id2),
            forall|id2: i64|
                id2 != id && old(self).spec_has(id2) ==> #[trigger] final(self).spec_at(id2)
                    == old(self).spec_at(id2),
            r is Ok ==> final(self).spec_at(id) == old(self).spec_at(id).line_written(
                row as int,
                col_start as int,
                spec_expand(cells@, 0),
            ),
    {
        match self.find(id) {
            Some(i) => {
                let mut g = self.grids.remove(i);
                let run = expand_cells(cells);
                g.write_line(row, col_start, &run);
                self.grids.insert(i, g);
                proof {
                    assert(self.grids@ =~= old(self).grids@.update(i as int, g));
                    lemma_update_frame(old(self).grids@, self.grids@, i as int, g);
                }
                Ok(())
            },
            None => Err(Fatal::UnknownGrid { grid: id }),
        }
    }

    /// `grid_clear`: blank the grid's cells.
    pub fn clear(&mut self, id: i64) -> (r: Result<(), Fatal>)
        requires
            old(self).wf(),
        ensures
            final(self).wf(),
            final(self).current_grid == old(self).current_grid,
            r is Ok <==> old(self).spec_has(id),
            r matches Err(f) ==> f == (Fatal::UnknownGrid { grid: id }) && *final(self) == *old(
                self,
            ),
            forall|id2: i64| #[trigger] final(self).spec_has(id2) == old(self).spec_has(id2),
            forall|id2: i64|
                id2 != id && old(self).spec_has(id2) ==> #[trigger] final(self).spec_at(id2)
                    == old(self).spec_at(id2),
            r is Ok ==> final(self).spec_at(id) == old(self).spec_at(id).cleared(),
    {
        match self.find(id) {
            Some(i) => {
                let mut g = self.grids.remove(i);
                g.clear();
                self.grids.insert(i, g);
                proof {
                    assert(self.grids@ =~= old(self).grids@.update(i as int, g));
                    lemma_update_frame(old(self).grids@, self.grids@, i as int, g);
                }
                Ok(())
            },
            None => Err(Fatal::UnknownGrid { grid: id }),
        }
    }

    /// `grid_cursor_goto`: point the current-grid pointer at `id` and move its
    /// cursor.
    pub fn cursor_goto(&mut self, id: i64, row: i64, col: i64) -> (r: Result<(), Fatal>)
        requires
            old(self).wf(),
            0 <= row <= usize::MAX,
            0 <= col <= usize::MAX,
        ensures
            final(self).wf(),
            r is Ok <==> old(self).spec_has(id),
            r matches Err(f) ==> f == (Fatal::UnknownGrid { grid: id }) && *final(self) == *old(
                self,
            ),
            forall|id2: i64| #[trigger] final(self).spec_has(id2) == old(self).spec_has(id2),
            forall|id2: i64|
                id2 != id && old(self).spec_has(id2) ==> #[trigger] final(self).spec_at(id2)
                    == old(self).spec_at(id2),
            r is Ok ==> final(self).spec_at(id) == old(self).spec_at(id).cursor_moved(
                row as nat,
                col as nat,
            ) && final(self).current_grid == id,
    {
        match self.find(id) {
            Some(i) => {
                let mut g = self.grids.remove(i);
                g.set_cursor(row, col);
                self.grids.insert(i, g);
                self.current_grid = id;
                proof {
                    assert(self.grids@ =~= old(self).grids@.update(i as int, g));
                    lemma_update_frame(old(self).grids@, self.grids@, i as int, g);
                }
                Ok(())
            },
            None => Err(Fatal::UnknownGrid { grid: id }),
        }
    }

    /// `grid_scroll`: shift the rectangle's contents by `rows`.
    pub fn scroll(
        &mut self,
        id: i64,
        top: i64,
        bot: i64,
        left: i64,
        right: i64,
        rows: i64,
    ) -> (r: Result<(), Fatal>)
        requires
            old(self).wf(),
        ensures
            final(self).wf(),
            final(self).current_grid == old(self).current_grid,
            r is Ok <==> old(self).spec_has(id),
            r matches Err(f) ==> f == (Fatal::UnknownGrid { grid: id }) && *final(self) == *old(
                self,
            ),
            forall|id2: i64| #[trigger] final(self).spec_has(id2) == old(self).spec_has(id2),
            forall|id2: i64|
                id2 != id && old(self).spec_has(id2) ==> #[trigger] final(self).spec_at(id2)
                    == old(self).spec_at(id2),
            r is Ok ==> final(self).spec_at(id) == old(self).spec_at(id).scrolled(
                top as int,
                bot as int,
                left as int,
                right as int,
                rows as int,
            ),
    {
        match self.find(id) {
            Some(i) => {
                let mut g = self.grids.remove(i);
                g.scroll(top, bot, left, right, rows);
                self.grids.insert(i, g);
                proof {
                    assert(self.grids@ =~= old(self).grids@.update(i as int, g));
                    lemma_update_frame(old(self).grids@, self.grids@, i as int, g);
                }
                Ok(())
            },
            None => Err(Fatal::UnknownGrid { grid: id }),
        }
    }

    /// Any of the positioning events: replace the grid's positioning metadata.
    pub fn set_win(&mut self, id: i64, w: WinState) -> (r: Result<(), Fatal>)
        requires
            old(self).wf(),
        ensures
            final(self).wf(),
            final(self).current_grid == old(self).current_grid,
            r is Ok <==> old(self).spec_has(id),
            r matches Err(f) ==> f == (Fatal::UnknownGrid { grid: id }) && *final(self) == *old(
                self,
            ),
            forall|id2: i64| #[trigger] final(self).spec_has(id2) == old(self).spec_has(id2),
            forall|id2: i64|
                id2 != id && old(self).spec_has(id2) ==> #[trigger] final(self).spec_at(id2)
                    == old(self).spec_at(id2),
            r is Ok ==> final(self).spec_at(id) == old(self).spec_at(id).with_win(w),
    {
        match self.find(id) {
            Some(i) => {
                let mut g = self.grids.remove(i);
                g.set_win(w);
                self.grids.insert(i, g);
                proof {
                    assert(self.grids@ =~= old(self).grids@.update(i as int, g));
                    lemma_update_frame(old(self).grids@, self.grids@, i as int, g);
                }
                Ok(())
            },
            None => Err(Fatal::UnknownGrid { grid: id }),
        }
    }

    /// `grid_destroy`: remove the grid; every grid anchored to it is orphaned
    /// and from then on reports itself hidden. Destroying the root grid or an
    /// unknown id is a protocol violation.
    pub fn destroy(&mut self, id: i64) -> (r: Result<(), Fatal>)
        requires
            old(self).wf(),
        ensures
            final(self).wf(),
            final(self).current_grid == old(self).current_grid,
            r is Ok <==> (old(self).spec_has(id) && id != 1),
            r matches Err(f) ==> (*final(self) == *old(self) && f == if !old(self).spec_has(id) {
                Fatal::UnknownGrid { grid: id }
            } else {
                Fatal::ReservedGrid { grid: id }
            }),
            r is Ok ==> {
                &&& !final(self).spec_has(id)
                &&& forall|id2: i64|
                    id2 != id ==> #[trigger] final(self).spec_has(id2) == old(self).spec_has(id2)
                &&& forall|id2: i64|
                    id2 != id && old(self).spec_has(id2) ==> #[trigger] final(self).spec_at(id2)
                        == (if spec_anchored_to(old(self).spec_at(id2).win, id) {
                        old(self).spec_at(id2).with_win(WinState::Hidden)
                    } else {
                        old(self).spec_at(id2)
                    })
            },
    {
        match self.find(id) {
            None => Err(Fatal::UnknownGrid { grid: id }),
            Some(i) => {
                if id == 1 {
                    return Err(Fatal::ReservedGrid { grid: id });
                }
                self.grids.remove(i);
                let ghost removed = self.grids@;
                proof {
                    lemma_remove_frame(old(self).grids@, removed, i as int);
                }
                let mut j: usize = 0;
                while j < self.grids.len()
                    invariant
                        j <= self.grids@.len(),
                        self.grids@.len() == removed.len(),
                        self.current_grid == old(self).current_grid,
                        forall|k: int|
                            j <= k < removed.len() ==> #[trigger] self.grids@[k] == removed[k],
                        forall|k: int|
                            0 <= k < j ==> #[trigger] self.grids@[k] == (
                            if spec_anchored_to(removed[k].win, id) {
                                Grid { win: WinState::Hidden, ..removed[k] }
                            } else {
                                removed[k]
                            }),
                    decreases self.grids@.len() - j,
                {
                    if anchored_to(&self.grids[j].win, id) {
                        let mut g = self.grids.remove(j);
                        g.set_win(WinState::Hidden);
                        self.grids.insert(j, g);
                        proof {
                            assert(g@ == (Grid { win: WinState::Hidden, ..removed[j as int] })@);
                            assert(g == (Grid { win: WinState::Hidden, ..removed[j as int] }));
                        }
                    }
                    j = j + 1;
                }
                proof {
                    lemma_hide_orphans_frame(removed, self.grids@, id);
                    assert(has_grid(removed, 1));
                    assert(has_grid(self.grids@, 1));
                }
                Ok(())
            },
        }
    }
}

/// Hiding the orphans of `id` slot by slot keeps every id in place and only
/// rewrites positioning state.
proof fn lemma_hide_orphans_frame(s1: Seq<Grid>, s2: Seq<Grid>, id: i64)
    requires
        ids_unique(s1),
        s2.len() == s1.len(),
        forall|k: int|
            0 <= k < s1.len() ==> #[trigger] s2[k] == (if spec_anchored_to(s1[k].win, id) {
                Grid { win: WinState::Hidden, ..s1[k] }
            } else {
                s1[k]
            }),
    ensures
        ids_unique(s2),
        forall|id2: i64| #[trigger] has_grid(s2, id2) == has_grid(s1, id2),
        forall|id2: i64|
            has_grid(s1, id2) ==> #[trigger] grid_at(s2, id2) == (if spec_anchored_to(
                grid_at(s1, id2).win,
                id,
            ) {
                grid_at(s1, id2).with_win(WinState::Hidden)
            } else {
                grid_at(s1, id2)
            }),
        forall|k: int| (forall|m: int| 0 <= m < s1.len() ==> (#[trigger] s1[m]).wf()) && 0 <= k
            < s2.len() ==> (#[trigger] s2[k]).wf(),
{
    assert(forall|k: int| 0 <= k < s1.len() ==> (#[trigger] s2[k]).id == s1[k].id);
    assert forall|id2: i64| #[trigger] has_grid(s2, id2) == has_grid(s1, id2) by {
        if has_grid(s1, id2) {
            let w = grid_index(s1, id2);
            assert(s2[w].id == id2);
        }
        if has_grid(s2, id2) {
            let w = grid_index(s2, id2);
            assert(s1[w].id == id2);
        }
    }
    assert forall|id2: i64| has_grid(s1, id2) implies #[trigger] grid_at(s2, id2) == (
    if spec_anchored_to(grid_at(s1, id2).win, id) {
        grid_at(s1, id2).with_win(WinState::Hidden)
    } else {
        grid_at(s1, id2)
    }) by {
        let w = grid_index(s1, id2);
        lemma_grid_index_unique(s1, id2, w);
        assert(s2[w].id == id2);
        lemma_grid_index_unique(s2, id2, w);
        if spec_anchored_to(s1[w].win, id) {
            assert(grid_at(s2, id2) =~~= grid_at(s1, id2).with_win(WinState::Hidden));
        }
    }
    assert forall|k: int|
        (forall|m: int| 0 <= m < s1.len() ==> (#[trigger] s1[m]).wf()) && 0 <= k
        < s2.len() implies (#[trigger] s2[k]).wf() by {
        assert(s1[k].wf());
        if spec_anchored_to(s1[k].win, id) {
            assert(s2[k]@ =~~= s1[k]@.with_win(WinState::Hidden));
        }
    }
}

} // verus!
