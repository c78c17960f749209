//! The typed redraw events the dispatcher consumes, and the fatal protocol
//! violations it can answer with. The byte-level decoding that produces these
//! values is the transport's business, not the core's.

use vstd::prelude::*;
use crate::color::{HlAttr, HlGroup};
use crate::grid::{AnchorCorner, InputCell};

verus! {

/// Cursor shape of one mode descriptor.
#[derive(Clone, Copy, PartialEq, Eq, Debug)]
pub enum CursorShape {
    Block,
    Horizontal,
    Vertical,
}

/// One cursor style descriptor of `mode_info_set`.
#[derive(Clone, Copy, PartialEq, Eq, Debug)]
pub struct ModeInfo {
    pub shape: CursorShape,
    pub cell_percentage: i64,
    pub blinkwait: i64,
    pub blinkon: i64,
    pub blinkoff: i64,
    pub attr_id: i64,
}

/// One completion item of `popupmenu_show`.
#[derive(Clone, PartialEq, Eq, Debug)]
pub struct PopupmenuItem {
    pub word: String,
    pub kind: String,
    pub menu: String,
    pub info: String,
}

/// One tab entry of `tabline_update`: the editor-side tab handle and its label.
#[derive(Clone, PartialEq, Eq, Debug)]
pub struct Tab {
    pub id: i64,
    pub name: String,
}

/// One chunk of command-line content: text drawn with one attribute id.
#[derive(Clone, PartialEq, Eq, Debug)]
pub struct ContentChunk {
    pub attr_id: i64,
    pub text: String,
}

/// One `option_set` update. Only the options the model acts on are
/// distinguished; everything else is accepted and ignored.
#[derive(Clone, PartialEq, Eq, Debug)]
pub enum OptionValue {
    Linespace(i64),
    Guifont(String),
    ShowTabline(i64),
    Unknown(String),
}

/// One decoded redraw event, in the order the batch carried it.
#[derive(Clone, PartialEq, Eq, Debug)]
pub enum UiEvent {
    GridResize { grid: i64, width: i64, height: i64 },
    GridLine { grid: i64, row: i64, col_start: i64, cells: Vec<InputCell> },
    GridClear { grid: i64 },
    GridDestroy { grid: i64 },
    GridCursorGoto { grid: i64, row: i64, col: i64 },
    GridScroll { grid: i64, top: i64, bot: i64, left: i64, right: i64, rows: i64 },
    WinPos { grid: i64, anchor_grid: i64, row: i64, col: i64, width: i64, height: i64 },
    WinFloatPos { grid: i64, anchor_grid: i64, corner: AnchorCorner, row: i64, col: i64 },
    WinExternalPos { grid: i64 },
    WinHide { grid: i64 },
    WinClose { grid: i64 },
    MsgSetPos { grid: i64, row: i64, scrolled: bool },
    /// Accepted and ignored: the core keeps no viewport/scrollbar state.
    WinViewport { grid: i64 },
    DefaultColorsSet { fg: i64, bg: i64, sp: i64 },
    HlAttrDefine { id: i64, attrs: HlAttr },
    /// A binding for a semantic group, the name mapped by
    /// `crate::color::hl_group_from_name`; `None` is a group name outside the
    /// closed set the theme derives from, which is ignored.
    HlGroupSet { group: Option<HlGroup>, id: i64 },
    ModeInfoSet { cursor_styles: Vec<ModeInfo> },
    ModeChange { idx: i64 },
    OptionSet { option: OptionValue },
    SetTitle { title: String },
    SetIcon { icon: String },
    BusyStart,
    BusyStop,
    MouseOn,
    MouseOff,
    Suspend,
    UpdateMenu,
    Bell,
    VisualBell,
    Flush,
    PopupmenuShow {
        items: Vec<PopupmenuItem>,
        selected: i64,
        row: i64,
        col: i64,
        /// `-1` anchors the menu to the command-line host.
        grid: i64,
    },
    PopupmenuSelect { selected: i64 },
    PopupmenuHide,
    TablineUpdate { current: i64, tabs: Vec<Tab> },
    CmdlineShow {
        content: Vec<ContentChunk>,
        pos: i64,
        firstc: String,
        prompt: String,
        indent: i64,
        level: i64,
    },
    CmdlinePos { pos: i64, level: i64 },
    CmdlineSpecialChar { ch: char, shift: bool, level: i64 },
    CmdlineHide,
    CmdlineBlockShow { lines: Vec<Vec<ContentChunk>> },
    CmdlineBlockAppend { line: Vec<ContentChunk> },
    CmdlineBlockHide,
    /// An event name the protocol surface does not contain; processing it is a
    /// protocol violation.
    Unrecognized { name: String },
}

/// A protocol desync: the session cannot continue because downstream state
/// would be undefined.
#[derive(Clone, PartialEq, Eq, Debug)]
pub enum Fatal {
    /// A line/clear/scroll/cursor/position event referenced a grid id that no
    /// prior resize created.
    UnknownGrid { grid: i64 },
    /// An attempt to destroy the reserved root grid.
    ReservedGrid { grid: i64 },
    /// `mode_change` referenced an index outside the current mode table.
    InvalidModeIndex { idx: i64, len: usize },
    /// An event name outside the protocol surface.
    UnrecognizedEvent { name: String },
}

} // verus!
