//! The event dispatcher and flush coordinator: the authoritative model of the
//! whole UI, one `apply` per decoded event, strictly in batch order. State
//! changes accumulate silently and dirty flags remember what a flush must
//! reconcile; the `Flush` event alone hands a consistent outcome outward.

use vstd::prelude::*;
use crate::cmdline::Cmdline;
use crate::color::{spec_theme_of, Colors, Theme};
use crate::event::{Fatal, ModeInfo, OptionValue, Tab, UiEvent};
use crate::grid::WinState;
use crate::grids::{spec_anchored_to, GridStore};
use crate::popupmenu::{PopupHost, Popupmenu};

verus! {

/// What one flush hands outward, besides the state itself being consistent to
/// read: whether the editor must be asked for a resize (the caller debounces
/// it), and the regenerated theme when the batch changed theme-affecting
/// state.
#[derive(Clone, Copy, PartialEq, Eq, Debug)]
pub struct FlushOutcome {
    pub resize_needed: bool,
    pub theme: Option<Theme>,
}

/// The whole reconciled UI model.
pub struct UiState {
    pub colors: Colors,
    pub mode_infos: Vec<ModeInfo>,
    /// Index of the active mode in `mode_infos`.
    pub current_mode: usize,
    pub grids: GridStore,
    pub popupmenu: Popupmenu,
    pub cmdline: Cmdline,
    pub tabline_current: i64,
    pub tabline_tabs: Vec<Tab>,
    pub title: String,
    pub busy: bool,
    pub guifont: String,
    pub linespace: i64,
    pub show_tabline: i64,
    /// Our grid size may no longer match the window: tell the editor at the
    /// next flush.
    pub geometry_dirty: bool,
    /// Theme-affecting state changed: regenerate the style output at the next
    /// flush.
    pub theme_dirty: bool,
}

/// The successful result of every event but `Flush`: no outcome to hand out.
pub open spec fn ok_none() -> Result<Option<FlushOutcome>, Fatal> {
    Ok(None)
}

/// The bounds machine integers force on event payloads; the decoder
/// guarantees them.
pub open spec fn event_wf(e: UiEvent) -> bool {
    match e {
        UiEvent::GridResize { width, height, .. } => 0 <= width <= usize::MAX && 0 <= height
            <= usize::MAX,
        UiEvent::GridLine { row, col_start, .. } => 0 <= row && 0 <= col_start,
        UiEvent::GridCursorGoto { row, col, .. } => 0 <= row <= usize::MAX && 0 <= col
            <= usize::MAX,
        UiEvent::PopupmenuShow { selected, .. } => selected <= usize::MAX,
        UiEvent::PopupmenuSelect { selected } => selected <= usize::MAX,
        _ => true,
    }
}

impl UiState {
    pub open spec fn wf(self) -> bool {
        &&& self.colors.wf()
        &&& self.grids.wf()
        &&& self.popupmenu.wf()
    }

    /// The state right after attaching: defaults everywhere, only the root
    /// grid, nothing dirty.
    pub fn new() -> (s: UiState)
        ensures
            s.wf(),
            !s.geometry_dirty,
            !s.theme_dirty,
            !s.busy,
            !s.popupmenu.visible,
            !s.cmdline.visible,
            s.mode_infos@.len() == 0,
            s.current_mode == 0,
            s.grids.spec_has(1),
    {
        UiState {
            colors: Colors::new(),
            mode_infos: Vec::new(),
            current_mode: 0,
            grids: GridStore::new(),
            popupmenu: Popupmenu::new(),
            cmdline: Cmdline::new(),
            tabline_current: 0,
            tabline_tabs: Vec::new(),
            title: String::new(),
            busy: false,
            guifont: String::new(),
            linespace: 0,
            show_tabline: 0,
            geometry_dirty: false,
            theme_dirty: false,
        }
    }

    /// Route one decoded event to its component, exactly as the protocol
    /// orders: observable effects before the next `Flush` depend only on the
    /// batch order, and a reference to undeclared state is fatal.
    #[allow(unused_variables)]
    #[verifier::rlimit(100)]
    pub fn apply(&mut self, event: UiEvent) -> (r: Result<Option<FlushOutcome>, Fatal>)
        requires
            old(self).wf(),
            event_wf(event),
        ensures
            final(self).wf(),
            match event {
                UiEvent::GridResize { grid, width, height } => {
                    &&& r == ok_none()
                    &&& *final(self) == (UiState { grids: final(self).grids, ..*old(self) })
                    &&& final(self).grids.current_grid == old(self).grids.current_grid
                    &&& forall|id2: i64|
                        #[trigger] final(self).grids.spec_has(id2) == (old(self).grids.spec_has(
                            id2,
                        ) || id2 == grid)
                    &&& forall|id2: i64|
                        id2 != grid && old(self).grids.spec_has(id2)
                            ==> #[trigger] final(self).grids.spec_at(id2) == old(self).grids.spec_at(id2)
                    &&& final(self).grids.spec_at(grid) == if old(self).grids.spec_has(grid) {
                        old(self).grids.spec_at(grid).resized(width as nat, height as nat)
                    } else {
                        crate::grid::fresh_grid_model(width as nat, height as nat)
                    }
                },
                UiEvent::GridLine { grid, row, col_start, ref cells } => {
                    &&& r == if old(self).grids.spec_has(grid) {
                        ok_none()
                    } else {
                        Err(Fatal::UnknownGrid { grid })
                    }
                    &&& r is Err ==> *final(self) == *old(self)
                    &&& *final(self) == (UiState { grids: final(self).grids, ..*old(self) })
                    &&& store_frame(old(self).grids, final(self).grids, grid)
                    &&& r is Ok ==> final(self).grids.spec_at(grid) == old(self).grids.spec_at(
                        grid,
                    ).line_written(
                        row as int,
                        col_start as int,
                        crate::grid::spec_expand(cells@, 0),
                    )
                },
                UiEvent::GridClear { grid } => {
                    &&& r == if old(self).grids.spec_has(grid) {
                        ok_none()
                    } else {
                        Err(Fatal::UnknownGrid { grid })
                    }
                    &&& r is Err ==> *final(self) == *old(self)
                    &&& *final(self) == (UiState { grids: final(self).grids, ..*old(self) })
                    &&& store_frame(old(self).grids, final(self).grids, grid)
                    &&& r is Ok ==> final(self).grids.spec_at(grid) == old(self).grids.spec_at(
                        grid,
                    ).cleared()
                },
                UiEvent::GridDestroy { grid } => {
                    &&& r == if !old(self).grids.spec_has(grid) {
                        Err(Fatal::UnknownGrid { grid })
                    } else if grid == 1 {
                        Err(Fatal::ReservedGrid { grid })
                    } else {
                        ok_none()
                    }
                    &&& r is Err ==> *final(self) == *old(self)
                    &&& *final(self) == (UiState { grids: final(self).grids, ..*old(self) })
                    &&& final(self).grids.current_grid == old(self).grids.current_grid
                    &&& r is Ok ==> {
                        &&& !final(self).grids.spec_has(grid)
                        &&& forall|id2: i64|
                            id2 != grid ==> #[trigger] final(self).grids.spec_has(id2) == old(self).grids.spec_has(id2)
                        &&& forall|id2: i64|
                            id2 != grid && old(self).grids.spec_has(id2)
                                ==> #[trigger] final(self).grids.spec_at(id2) == (
                            if spec_anchored_to(old(self).grids.spec_at(id2).win, grid) {
                                old(self).grids.spec_at(id2).with_win(WinState::Hidden)
                            } else {
                                old(self).grids.spec_at(id2)
                            })
                    }
                },
                UiEvent::GridCursorGoto { grid, row, col } => {
                    &&& r == if old(self).grids.spec_has(grid) {
                        ok_none()
                    } else {
                        Err(Fatal::UnknownGrid { grid })
                    }
                    &&& r is Err ==> *final(self) == *old(self)
                    &&& *final(self) == (UiState { grids: final(self).grids, ..*old(self) })
                    &&& forall|id2: i64|
                        #[trigger] final(self).grids.spec_has(id2) == old(self).grids.spec_has(id2)
                    &&& forall|id2: i64|
                        id2 != grid && old(self).grids.spec_has(id2)
                            ==> #[trigger] final(self).grids.spec_at(id2) == old(self).grids.spec_at(id2)
                    &&& r is Ok ==> final(self).grids.spec_at(grid) == old(self).grids.spec_at(
                        grid,
                    ).cursor_moved(row as nat, col as nat) && final(self).grids.current_grid
                        == grid
                },
                UiEvent::GridScroll { grid, top, bot, left, right, rows } => {
                    &&& r == if old(self).grids.spec_has(grid) {
                        ok_none()
                    } else {
                        Err(Fatal::UnknownGrid { grid })
                    }
                    &&& r is Err ==> *final(self) == *old(self)
                    &&& *final(self) == (UiState { grids: final(self).grids, ..*old(self) })
                    &&& store_frame(old(self).grids, final(self).grids, grid)
                    &&& r is Ok ==> final(self).grids.spec_at(grid) == old(self).grids.spec_at(
                        grid,
                    ).scrolled(top as int, bot as int, left as int, right as int, rows as int)
                },
                UiEvent::WinPos { grid, anchor_grid, row, col, width, height } => {
                    &&& r == win_event_result(old(self).grids, grid, Some(anchor_grid))
                    &&& r is Err ==> *final(self) == *old(self)
                    &&& *final(self) == (UiState { grids: final(self).grids, ..*old(self) })
                    &&& store_frame(old(self).grids, final(self).grids, grid)
                    &&& r is Ok ==> final(self).grids.spec_at(grid) == old(self).grids.spec_at(
                        grid,
                    ).with_win(WinState::Window { anchor_grid, row, col, width, height })
                },
                UiEvent::WinFloatPos { grid, anchor_grid, corner, row, col } => {
                    &&& r == win_event_result(old(self).grids, grid, Some(anchor_grid))
                    &&& r is Err ==> *final(self) == *old(self)
                    &&& *final(self) == (UiState { grids: final(self).grids, ..*old(self) })
                    &&& store_frame(old(self).grids, final(self).grids, grid)
                    &&& r is Ok ==> final(self).grids.spec_at(grid) == old(self).grids.spec_at(
                        grid,
                    ).with_win(WinState::Float { anchor_grid, corner, row, col })
                },
                UiEvent::WinExternalPos { grid } => {
                    &&& r == win_event_result(old(self).grids, grid, None)
                    &&& r is Err ==> *final(self) == *old(self)
                    &&& *final(self) == (UiState { grids: final(self).grids, ..*old(self) })
                    &&& store_frame(old(self).grids, final(self).grids, grid)
                    &&& r is Ok ==> final(self).grids.spec_at(grid) == old(self).grids.spec_at(
                        grid,
                    ).with_win(WinState::External)
                },
                UiEvent::WinHide { grid } => {
                    &&& r == win_event_result(old(self).grids, grid, None)
                    &&& r is Err ==> *final(self) == *old(self)
                    &&& *final(self) == (UiState { grids: final(self).grids, ..*old(self) })
                    &&& store_frame(old(self).grids, final(self).grids, grid)
                    &&& r is Ok ==> final(self).grids.spec_at(grid) == old(self).grids.spec_at(
                        grid,
                    ).with_win(WinState::Hidden)
                },
                UiEvent::WinClose { grid } => {
                    &&& r == win_event_result(old(self).grids, grid, None)
                    &&& r is Err ==> *final(self) == *old(self)
                    &&& *final(self) == (UiState { grids: final(self).grids, ..*old(self) })
                    &&& store_frame(old(self).grids, final(self).grids, grid)
                    &&& r is Ok ==> final(self).grids.spec_at(grid) == old(self).grids.spec_at(
                        grid,
                    ).with_win(WinState::Hidden)
                },
                UiEvent::MsgSetPos { grid, row, scrolled } => {
                    &&& r == win_event_result(old(self).grids, grid, None)
                    &&& r is Err ==> *final(self) == *old(self)
                    &&& *final(self) == (UiState { grids: final(self).grids, ..*old(self) })
                    &&& store_frame(old(self).grids, final(self).grids, grid)
                    &&& r is Ok ==> final(self).grids.spec_at(grid) == old(self).grids.spec_at(
                        grid,
                    ).with_win(WinState::Msg { row, scrolled })
                },
                UiEvent::WinViewport { .. } => r == ok_none()
                    && *final(self) == *old(self),
                UiEvent::DefaultColorsSet { fg, bg, sp } => {
                    &&& r == ok_none()
                    &&& *final(self) == (UiState {
                        colors: final(self).colors,
                        theme_dirty: true,
                        ..*old(self)
                    })
                    &&& final(self).colors@ == old(self).colors@.set_defaults(
                        crate::color::spec_color_from_i64(fg),
                        crate::color::spec_color_from_i64(bg),
                        crate::color::spec_color_from_i64(sp),
                    )
                },
                UiEvent::HlAttrDefine { id, attrs } => {
                    &&& r == ok_none()
                    &&& *final(self) == (UiState {
                        colors: final(self).colors,
                        theme_dirty: true,
                        ..*old(self)
                    })
                    &&& final(self).colors@ == old(self).colors@.set_attr(id, attrs)
                },
                UiEvent::HlGroupSet { group, id } => {
                    &&& r == ok_none()
                    &&& match group {
                        Some(g) => *final(self) == (UiState {
                            colors: final(self).colors,
                            theme_dirty: true,
                            ..*old(self)
                        }) && final(self).colors@ == old(self).colors@.set_group(g, id),
                        None => *final(self) == *old(self),
                    }
                },
                UiEvent::ModeInfoSet { ref cursor_styles } => {
                    &&& r == ok_none()
                    &&& *final(self) == (UiState {
                        mode_infos: final(self).mode_infos,
                        ..*old(self)
                    })
                    &&& final(self).mode_infos@ == cursor_styles@
                },
                UiEvent::ModeChange { idx } => {
                    &&& r == if 0 <= idx < old(self).mode_infos@.len() {
                        ok_none()
                    } else {
                        Err(
                            Fatal::InvalidModeIndex {
                                idx,
                                len: old(self).mode_infos@.len() as usize,
                            },
                        )
                    }
                    &&& r is Err ==> *final(self) == *old(self)
                    &&& r is Ok ==> *final(self) == (UiState {
                        current_mode: idx as usize,
                        ..*old(self)
                    })
                },
                UiEvent::OptionSet { ref option } => {
                    &&& r == ok_none()
                    &&& match *option {
                        OptionValue::Linespace(v) => *final(self) == (UiState {
                            linespace: v,
                            geometry_dirty: true,
                            theme_dirty: true,
                            ..*old(self)
                        }),
                        OptionValue::Guifont(ref f) => *final(self) == (UiState {
                            guifont: final(self).guifont,
                            geometry_dirty: true,
                            theme_dirty: true,
                            ..*old(self)
                        }) && final(self).guifont@ == f@,
                        OptionValue::ShowTabline(v) => *final(self) == (UiState {
                            show_tabline: v,
                            geometry_dirty: true,
                            ..*old(self)
                        }),
                        OptionValue::Unknown(_) => *final(self) == *old(self),
                    }
                },
                UiEvent::SetTitle { ref title } => {
                    &&& r == ok_none()
                    &&& *final(self) == (UiState { title: final(self).title, ..*old(self) })
                    &&& final(self).title@ == title@
                },
                UiEvent::SetIcon { .. } => r == ok_none() && *final(self)
                    == *old(self),
                UiEvent::BusyStart => r == ok_none() && *final(self) == (
                UiState { busy: true, ..*old(self) }),
                UiEvent::BusyStop => r == ok_none() && *final(self) == (
                UiState { busy: false, ..*old(self) }),
                UiEvent::MouseOn | UiEvent::MouseOff | UiEvent::Suspend | UiEvent::UpdateMenu
                    | UiEvent::Bell | UiEvent::VisualBell => r == ok_none()
                    && *final(self) == *old(self),
                UiEvent::Flush => {
                    &&& r == Ok::<Option<FlushOutcome>, Fatal>(
                        Some(
                            FlushOutcome {
                                resize_needed: old(self).geometry_dirty,
                                theme: if old(self).theme_dirty {
                                    Some(spec_theme_of(old(self).colors@))
                                } else {
                                    Option::<Theme>::None
                                },
                            },
                        ),
                    )
                    &&& *final(self) == (UiState {
                        geometry_dirty: false,
                        theme_dirty: false,
                        ..*old(self)
                    })
                },
                UiEvent::PopupmenuShow { ref items, selected, row, col, grid } => {
                    &&& r == ok_none()
                    &&& *final(self) == (UiState {
                        popupmenu: final(self).popupmenu,
                        ..*old(self)
                    })
                    &&& final(self).popupmenu.visible
                    &&& final(self).popupmenu.host == if grid == -1 {
                        PopupHost::Cmdline
                    } else {
                        PopupHost::Grid { grid, row, col }
                    }
                    &&& final(self).popupmenu.selected == if selected < 0 {
                        Option::<usize>::None
                    } else {
                        Option::<usize>::Some(selected as usize)
                    }
                    &&& final(self).popupmenu.spec_total() == items@.len()
                    &&& final(self).popupmenu.shown@ + final(self).popupmenu.pending@ == items@
                },
                UiEvent::PopupmenuSelect { selected } => {
                    &&& r == ok_none()
                    &&& *final(self) == (UiState {
                        popupmenu: final(self).popupmenu,
                        ..*old(self)
                    })
                    &&& final(self).popupmenu == (Popupmenu {
                        selected: final(self).popupmenu.selected,
                        ..old(self).popupmenu
                    })
                    &&& final(self).popupmenu.selected == if !old(self).popupmenu.visible {
                        old(self).popupmenu.selected
                    } else if selected < 0 {
                        Option::<usize>::None
                    } else {
                        Option::<usize>::Some(selected as usize)
                    }
                },
                UiEvent::PopupmenuHide => {
                    &&& r == ok_none()
                    &&& *final(self) == (UiState {
                        popupmenu: final(self).popupmenu,
                        ..*old(self)
                    })
                    &&& final(self).popupmenu == (Popupmenu {
                        visible: false,
                        ..old(self).popupmenu
                    })
                },
                UiEvent::TablineUpdate { current, ref tabs } => {
                    &&& r == ok_none()
                    &&& *final(self) == (UiState {
                        tabline_current: current,
                        tabline_tabs: final(self).tabline_tabs,
                        ..*old(self)
                    })
                    &&& final(self).tabline_tabs@ == tabs@
                },
                UiEvent::CmdlineShow { ref content, pos, ref firstc, ref prompt, indent, level } => {
                    &&& r == ok_none()
                    &&& *final(self) == (UiState { cmdline: final(self).cmdline, ..*old(self) })
                    &&& final(self).cmdline.visible
                    &&& final(self).cmdline.content@ == content@
                    &&& final(self).cmdline.pos == pos
                    &&& final(self).cmdline.firstc@ == firstc@
                    &&& final(self).cmdline.prompt@ == prompt@
                    &&& final(self).cmdline.indent == indent
                    &&& final(self).cmdline.level == level
                    &&& final(self).cmdline.special is None
                    &&& final(self).cmdline.block_visible == old(self).cmdline.block_visible
                    &&& final(self).cmdline.block_lines == old(self).cmdline.block_lines
                },
                UiEvent::CmdlinePos { pos, level } => {
                    &&& r == ok_none()
                    &&& *final(self) == (UiState { cmdline: final(self).cmdline, ..*old(self) })
                    &&& final(self).cmdline == (Cmdline { pos, level, ..old(self).cmdline })
                },
                UiEvent::CmdlineSpecialChar { ch, shift, .. } => {
                    &&& r == ok_none()
                    &&& *final(self) == (UiState { cmdline: final(self).cmdline, ..*old(self) })
                    &&& final(self).cmdline == (Cmdline {
                        special: Some(crate::cmdline::SpecialChar { ch, shift }),
                        ..old(self).cmdline
                    })
                },
                UiEvent::CmdlineHide => {
                    &&& r == ok_none()
                    &&& *final(self) == (UiState { cmdline: final(self).cmdline, ..*old(self) })
                    &&& final(self).cmdline == (Cmdline { visible: false, ..old(self).cmdline })
                },
                UiEvent::CmdlineBlockShow { ref lines } => {
                    &&& r == ok_none()
                    &&& *final(self) == (UiState { cmdline: final(self).cmdline, ..*old(self) })
                    &&& final(self).cmdline.block_visible
                    &&& final(self).cmdline.block_lines@ == lines@
                    &&& final(self).cmdline == (Cmdline {
                        block_visible: true,
                        block_lines: final(self).cmdline.block_lines,
                        ..old(self).cmdline
                    })
                },
                UiEvent::CmdlineBlockAppend { ref line } => {
                    &&& r == ok_none()
                    &&& *final(self) == (UiState { cmdline: final(self).cmdline, ..*old(self) })
                    &&& final(self).cmdline.block_lines@ == old(self).cmdline.block_lines@.push(
                        *line,
                    )
                    &&& final(self).cmdline.visible == old(self).cmdline.visible
                    &&& final(self).cmdline.block_visible == old(self).cmdline.block_visible
                },
                UiEvent::CmdlineBlockHide => {
                    &&& r == ok_none()
                    &&& *final(self) == (UiState { cmdline: final(self).cmdline, ..*old(self) })
                    &&& final(self).cmdline.block_lines@.len() == 0
                    &&& !final(self).cmdline.block_visible
                    &&& final(self).cmdline.visible == old(self).cmdline.visible
                },
                UiEvent::Unrecognized { ref name } => {
                    &&& r matches Err(f) && f matches Fatal::UnrecognizedEvent { name: n } && n@
                        == name@
                    &&& *final(self) == *old(self)
                },
            },
    {
        match event {
            UiEvent::GridResize { grid, width, height } => {
                self.grids.resize(grid, width, height);
                Ok(None)
            },
            UiEvent::GridLine { grid, row, col_start, cells } => {
                match self.grids.line(grid, row, col_start, &cells) {
                    Ok(()) => Ok(None),
                    Err(f) => Err(f),
                }
            },
            UiEvent::GridClear { grid } => {
                match self.grids.clear(grid) {
                    Ok(()) => Ok(None),
                    Err(f) => Err(f),
                }
            },
            UiEvent::GridDestroy { grid } => {
                match self.grids.destroy(grid) {
                    Ok(()) => Ok(None),
                    Err(f) => Err(f),
                }
            },
            UiEvent::GridCursorGoto { grid, row, col } => {
                match self.grids.cursor_goto(grid, row, col) {
                    Ok(()) => Ok(None),
                    Err(f) => Err(f),
                }
            },
            UiEvent::GridScroll { grid, top, bot, left, right, rows } => {
                match self.grids.scroll(grid, top, bot, left, right, rows) {
                    Ok(()) => Ok(None),
                    Err(f) => Err(f),
                }
            },
            UiEvent::WinPos { grid, anchor_grid, row, col, width, height } => {
                self.apply_win(
                    grid,
                    Some(anchor_grid),
                    WinState::Window { anchor_grid, row, col, width, height },
                )
            },
            UiEvent::WinFloatPos { grid, anchor_grid, corner, row, col } => {
                self.apply_win(
                    grid,
                    Some(anchor_grid),
                    WinState::Float { anchor_grid, corner, row, col },
                )
            },
            UiEvent::WinExternalPos { grid } => self.apply_win(grid, None, WinState::External),
            UiEvent::WinHide { grid } => self.apply_win(grid, None, WinState::Hidden),
            UiEvent::WinClose { grid } => self.apply_win(grid, None, WinState::Hidden),
            UiEvent::MsgSetPos { grid, row, scrolled } => {
                self.apply_win(grid, None, WinState::Msg { row, scrolled })
            },
            UiEvent::WinViewport { .. } => Ok(None),
            UiEvent::DefaultColorsSet { fg, bg, sp } => {
                self.colors.set_defaults(fg, bg, sp);
                self.theme_dirty = true;
                Ok(None)
            },
            UiEvent::HlAttrDefine { id, attrs } => {
                self.colors.define_attr(id, attrs);
                self.theme_dirty = true;
                Ok(None)
            },
            UiEvent::HlGroupSet { group, id } => {
                match group {
                    Some(g) => {
                        self.colors.set_group(g, id);
                        self.theme_dirty = true;
                    },
                    None => {},
                }
                Ok(None)
            },
            UiEvent::ModeInfoSet { cursor_styles } => {
                self.mode_infos = cursor_styles;
                Ok(None)
            },
            UiEvent::ModeChange { idx } => {
                if 0 <= idx && (idx as u64) < self.mode_infos.len() as u64 {
                    self.current_mode = idx as usize;
                    Ok(None)
                } else {
                    Err(Fatal::InvalidModeIndex { idx, len: self.mode_infos.len() })
                }
            },
            UiEvent::OptionSet { option } => {
                match option {
                    OptionValue::Linespace(v) => {
                        self.linespace = v;
                        self.geometry_dirty = true;
                        self.theme_dirty = true;
                    },
                    OptionValue::Guifont(f) => {
                        self.guifont = f;
                        self.geometry_dirty = true;
                        self.theme_dirty = true;
                    },
                    OptionValue::ShowTabline(v) => {
                        self.show_tabline = v;
                        self.geometry_dirty = true;
                    },
                    OptionValue::Unknown(_) => {},
                }
                Ok(None)
            },
            UiEvent::SetTitle { title } => {
                self.title = title;
                Ok(None)
            },
            UiEvent::SetIcon { .. } => Ok(None),
            UiEvent::BusyStart => {
                self.busy = true;
                Ok(None)
            },
            UiEvent::BusyStop => {
                self.busy = false;
                Ok(None)
            },
            UiEvent::MouseOn => Ok(None),
            UiEvent::MouseOff => Ok(None),
            UiEvent::Suspend => Ok(None),
            UiEvent::UpdateMenu => Ok(None),
            UiEvent::Bell => Ok(None),
            UiEvent::VisualBell => Ok(None),
            UiEvent::Flush => {
                let outcome = FlushOutcome {
                    resize_needed: self.geometry_dirty,
                    theme: if self.theme_dirty {
                        Some(self.colors.derive_theme())
                    } else {
                        None
                    },
                };
                self.geometry_dirty = false;
                self.theme_dirty = false;
                Ok(Some(outcome))
            },
            UiEvent::PopupmenuShow { items, selected, row, col, grid } => {
                self.popupmenu.show(items, selected, row, col, grid);
                Ok(None)
            },
            UiEvent::PopupmenuSelect { selected } => {
                self.popupmenu.select(selected);
                Ok(None)
            },
            UiEvent::PopupmenuHide => {
                self.popupmenu.dismiss();
                Ok(None)
            },
            UiEvent::TablineUpdate { current, tabs } => {
                self.tabline_current = current;
                self.tabline_tabs = tabs;
                Ok(None)
            },
            UiEvent::CmdlineShow { content, pos, firstc, prompt, indent, level } => {
                self.cmdline.show(content, pos, firstc, prompt, indent, level);
                Ok(None)
            },
            UiEvent::CmdlinePos { pos, level } => {
                self.cmdline.set_pos(pos, level);
                Ok(None)
            },
            UiEvent::CmdlineSpecialChar { ch, shift, .. } => {
                self.cmdline.set_special(ch, shift);
                Ok(None)
            },
            UiEvent::CmdlineHide => {
                self.cmdline.dismiss();
                Ok(None)
            },
            UiEvent::CmdlineBlockShow { lines } => {
                self.cmdline.block_show(lines);
                Ok(None)
            },
            UiEvent::CmdlineBlockAppend { line } => {
                self.cmdline.block_append(line);
                Ok(None)
            },
            UiEvent::CmdlineBlockHide => {
                self.cmdline.block_hide();
                Ok(None)
            },
            UiEvent::Unrecognized { name } => Err(Fatal::UnrecognizedEvent { name }),
        }
    }

    /// The cursor style descriptor of the active mode, for the renderer.
    /// `None` only before the first `mode_info_set` arrived: a fatal
    /// `mode_change` can never leave the index dangling.
    pub fn current_mode_info(&self) -> (r: Option<&ModeInfo>)
        ensures
            match r {
                Some(m) => self.current_mode < self.mode_infos@.len() && *m
                    == self.mode_infos@[self.current_mode as int],
                None => self.current_mode >= self.mode_infos@.len(),
            },
    {
        if self.current_mode < self.mode_infos.len() {
            Some(&self.mode_infos[self.current_mode])
        } else {
            None
        }
    }

    /// One positioning event: the grid, and the anchor when the event names
    /// one, must both exist.
    fn apply_win(&mut self, grid: i64, anchor: Option<i64>, w: WinState) -> (r: Result<
        Option<FlushOutcome>,
        Fatal,
    >)
        requires
            old(self).wf(),
        ensures
            final(self).wf(),
            r == win_event_result(old(self).grids, grid, anchor),
            r is Err ==> *final(self) == *old(self),
            *final(self) == (UiState { grids: final(self).grids, ..*old(self) }),
            store_frame(old(self).grids, final(self).grids, grid),
            r is Ok ==> final(self).grids.spec_at(grid) == old(self).grids.spec_at(grid).with_win(
                w,
            ),
    {
        match anchor {
            Some(a) => {
                if self.grids.get(a).is_none() {
                    if self.grids.get(grid).is_none() {
                        return Err(Fatal::UnknownGrid { grid });
                    }
                    return Err(Fatal::UnknownGrid { grid: a });
                }
            },
            None => {},
        }
        match self.grids.set_win(grid, w) {
            Ok(()) => Ok(None),
            Err(f) => Err(f),
        }
    }
}

/// Every id the store had before is still there with an unchanged view,
/// except possibly `id` itself; no id appears or disappears, and the current
/// grid pointer stays.
pub open spec fn store_frame(pre: GridStore, post: GridStore, id: i64) -> bool {
    &&& forall|id2: i64| #[trigger] post.spec_has(id2) == pre.spec_has(id2)
    &&& forall|id2: i64|
        id2 != id && pre.spec_has(id2) ==> #[trigger] post.spec_at(id2) == pre.spec_at(id2)
    &&& post.current_grid == pre.current_grid
}

/// A positioning event succeeds when the grid it moves, and the anchor it
/// names, both exist; the grid's absence is reported first.
pub open spec fn win_event_result(store: GridStore, grid: i64, anchor: Option<i64>) -> Result<
    Option<FlushOutcome>,
    Fatal,
> {
    if !store.spec_has(grid) {
        Err(Fatal::UnknownGrid { grid })
    } else {
        match anchor {
            Some(a) => if !store.spec_has(a) {
                Err(Fatal::UnknownGrid { grid: a })
            } else {
                Ok(None)
            },
            None => Ok(None),
        }
    }
}

} // verus!
