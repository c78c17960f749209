//! The popup (completion) menu state machine. A shown menu is hosted either
//! by a grid cell or by the command-line overlay; which one is decided by the
//! show event alone, and later select/hide events always act on the current
//! host. Item lists are accepted whole but exposed to the renderer in
//! fixed-size batches, one per scheduling opportunity, so a huge list cannot
//! stall a frame.

use vstd::prelude::*;
use crate::event::PopupmenuItem;

verus! {

/// How many items one scheduling opportunity materializes by default.
pub const DEFAULT_POPUPMENU_BATCH: usize = 40;

/// Who hosts the visible popup menu.
#[derive(Clone, Copy, PartialEq, Eq, Debug)]
pub enum PopupHost {
    /// Anchored to a cell of a grid.
    Grid { grid: i64, row: i64, col: i64 },
    /// Anchored to the command-line overlay.
    Cmdline,
}

/// The popup menu: its visibility, host, selection, and the two item queues of
/// the lazy materialization.
pub struct Popupmenu {
    pub visible: bool,
    pub host: PopupHost,
    /// Items already exposed to the renderer.
    pub shown: Vec<PopupmenuItem>,
    /// Items accepted by the last show but not yet exposed.
    pub pending: Vec<PopupmenuItem>,
    /// The selected index into the fully declared list, if any.
    pub selected: Option<usize>,
    /// How many pending items one `materialize_step` call moves over.
    pub batch_size: usize,
}

impl Popupmenu {
    /// The fully declared item count, materialized or not. Selection
    /// highlighting is judged against this, not against what is shown so far.
    pub open spec fn spec_total(self) -> nat {
        self.shown@.len() + self.pending@.len()
    }

    /// The batch size must allow progress.
    pub open spec fn wf(self) -> bool {
        self.batch_size >= 1
    }

    pub fn new() -> (p: Popupmenu)
        ensures
            p.wf(),
            !p.visible,
            p.shown@.len() == 0,
            p.pending@.len() == 0,
            p.selected is None,
            p.batch_size == DEFAULT_POPUPMENU_BATCH,
    {
        Popupmenu {
            visible: false,
            host: PopupHost::Cmdline,
            shown: Vec::new(),
            pending: Vec::new(),
            selected: None,
            batch_size: DEFAULT_POPUPMENU_BATCH,
        }
    }

    /// Replace the item list wholesale: the old items leave at once, the new
    /// ones are declared in full, and one batch is materialized immediately;
    /// the rest waits for `materialize_step` calls. Visibility, host and
    /// selection are governed by their own events.
    pub fn set_items(&mut self, items: Vec<PopupmenuItem>)
        requires
            old(self).wf(),
        ensures
            final(self).wf(),
            final(self).visible == old(self).visible,
            final(self).host == old(self).host,
            final(self).selected == old(self).selected,
            final(self).batch_size == old(self).batch_size,
            final(self).spec_total() == items@.len(),
            final(self).shown@ + final(self).pending@ == items@,
            final(self).shown@.len() == if items@.len() < old(self).batch_size {
                items@.len()
            } else {
                old(self).batch_size as nat
            },
    {
        self.shown = Vec::new();
        self.pending = items;
        self.materialize_step();
        proof {
            assert(self.shown@ + self.pending@ =~= self.shown@ + self.pending@);
        }
    }

    /// `popupmenu_show`: a grid id of `-1` anchors the menu to the
    /// command-line host, anything else to that grid.
    pub fn show(&mut self, items: Vec<PopupmenuItem>, selected: i64, row: i64, col: i64, grid: i64)
        requires
            old(self).wf(),
            selected <= usize::MAX,
        ensures
            final(self).wf(),
            final(self).visible,
            final(self).host == if grid == -1 {
                PopupHost::Cmdline
            } else {
                PopupHost::Grid { grid, row, col }
            },
            final(self).selected == if selected < 0 {
                Option::<usize>::None
            } else {
                Option::<usize>::Some(selected as usize)
            },
            final(self).spec_total() == items@.len(),
            final(self).shown@ + final(self).pending@ == items@,
            final(self).shown@.len() == if items@.len() < old(self).batch_size {
                items@.len()
            } else {
                old(self).batch_size as nat
            },
            final(self).batch_size == old(self).batch_size,
    {
        self.visible = true;
        self.host = if grid == -1 {
            PopupHost::Cmdline
        } else {
            PopupHost::Grid { grid, row, col }
        };
        self.selected = if selected < 0 {
            None
        } else {
            Some(selected as usize)
        };
        self.set_items(items);
    }

    /// One scheduling opportunity: move up to one batch of pending items into
    /// the shown list, keeping their order. Returns whether more remain, so
    /// the scheduler knows to run again.
    pub fn materialize_step(&mut self) -> (more: bool)
        requires
            old(self).wf(),
        ensures
            final(self).wf(),
            final(self).visible == old(self).visible,
            final(self).host == old(self).host,
            final(self).selected == old(self).selected,
            final(self).batch_size == old(self).batch_size,
            final(self).shown@ == old(self).shown@ + old(self).pending@.take(
                if old(self).pending@.len() < old(self).batch_size {
                    old(self).pending@.len() as int
                } else {
                    old(self).batch_size as int
                },
            ),
            final(self).pending@ == old(self).pending@.skip(
                if old(self).pending@.len() < old(self).batch_size {
                    old(self).pending@.len() as int
                } else {
                    old(self).batch_size as int
                },
            ),
            final(self).shown@ + final(self).pending@ == old(self).shown@ + old(self).pending@,
            final(self).spec_total() == old(self).spec_total(),
            more == (final(self).pending@.len() > 0),
    {
        let n = if self.pending.len() < self.batch_size {
            self.pending.len()
        } else {
            self.batch_size
        };
        let mut k: usize = 0;
        while k < n
            invariant
                k <= n,
                n <= old(self).pending@.len(),
                self.visible == old(self).visible,
                self.host == old(self).host,
                self.selected == old(self).selected,
                self.batch_size == old(self).batch_size,
                self.shown@ == old(self).shown@ + old(self).pending@.take(k as int),
                self.pending@ == old(self).pending@.skip(k as int),
            decreases n - k,
        {
            let item = self.pending.remove(0);
            self.shown.push(item);
            proof {
                assert(self.shown@ =~= old(self).shown@ + old(self).pending@.take(k + 1 as int));
                assert(self.pending@ =~= old(self).pending@.skip(k + 1 as int));
            }
            k = k + 1;
        }
        proof {
            assert(self.shown@ + self.pending@ =~= old(self).shown@ + old(self).pending@);
        }
        self.pending.len() > 0
    }

    /// `popupmenu_select`: a no-op while no menu is shown; otherwise it moves
    /// the selection of whichever host currently shows the menu (`-1` clears
    /// it). The host never changes here: while the command-line hosts the
    /// menu, selection changes go to it, never to a grid anchor — whatever
    /// grid id a transport may attach to the event is immaterial.
    pub fn select(&mut self, selected: i64)
        requires
            old(self).wf(),
            selected <= usize::MAX,
        ensures
            final(self).wf(),
            *final(self) == (Popupmenu { selected: final(self).selected, ..*old(self) }),
            final(self).selected == if !old(self).visible {
                old(self).selected
            } else if selected < 0 {
                Option::<usize>::None
            } else {
                Option::<usize>::Some(selected as usize)
            },
    {
        if !self.visible {
            return ;
        }
        self.selected = if selected < 0 {
            None
        } else {
            Some(selected as usize)
        };
    }

    /// `popupmenu_hide`: hide whichever host currently shows the menu.
    pub fn dismiss(&mut self)
        requires
            old(self).wf(),
        ensures
            final(self).wf(),
            *final(self) == (Popupmenu { visible: false, ..*old(self) }),
    {
        self.visible = false;
    }

    /// Whether the renderer should highlight a selected row: the selection is
    /// judged against the fully declared count, even while later batches are
    /// still pending.
    pub fn selection_to_highlight(&self) -> (r: Option<usize>)
        ensures
            r == (match self.selected {
                Some(i) => if i < self.spec_total() {
                    Option::<usize>::Some(i)
                } else {
                    Option::<usize>::None
                },
                None => Option::<usize>::None,
            }),
    {
        match self.selected {
            Some(i) => {
                if i < self.shown.len() {
                    Some(i)
                } else if i - self.shown.len() < self.pending.len() {
                    Some(i)
                } else {
                    None
                }
            },
            None => None,
        }
    }
}

impl Default for Popupmenu {
    /// An empty, hidden menu, as `new` builds it.
    fn default() -> (p: Popupmenu)
        ensures
            p.wf(),
            !p.visible,
            p.shown@.len() == 0,
            p.pending@.len() == 0,
            p.selected is None,
            p.batch_size == DEFAULT_POPUPMENU_BATCH,
    {
        Popupmenu::new()
    }
}

} // verus!
