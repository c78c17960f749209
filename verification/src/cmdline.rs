//! The command-line overlay: visibility, prompt content, cursor position,
//! special-character overlay, and the append-only block of continuation
//! lines shown between `cmdline_block_show` and `cmdline_block_hide`.

use vstd::prelude::*;
use crate::event::ContentChunk;

verus! {

/// A pending special character shown at the cursor (after `<C-v>` and the
/// like), possibly shifting the content right.
#[derive(Clone, Copy, PartialEq, Eq, Debug)]
pub struct SpecialChar {
    pub ch: char,
    pub shift: bool,
}

/// The command-line overlay state.
pub struct Cmdline {
    pub visible: bool,
    pub content: Vec<ContentChunk>,
    pub pos: i64,
    pub firstc: String,
    pub prompt: String,
    pub indent: i64,
    pub level: i64,
    pub special: Option<SpecialChar>,
    pub block_visible: bool,
    pub block_lines: Vec<Vec<ContentChunk>>,
}

impl Cmdline {
    pub fn new() -> (c: Cmdline)
        ensures
            !c.visible,
            c.content@.len() == 0,
            c.pos == 0,
            c.special is None,
            !c.block_visible,
            c.block_lines@.len() == 0,
    {
        Cmdline {
            visible: false,
            content: Vec::new(),
            pos: 0,
            firstc: String::new(),
            prompt: String::new(),
            indent: 0,
            level: 0,
            special: None,
            block_visible: false,
            block_lines: Vec::new(),
        }
    }

    /// `cmdline_show`: replace the overlay's content and show it. A pending
    /// special character never survives a new show.
    pub fn show(
        &mut self,
        content: Vec<ContentChunk>,
        pos: i64,
        firstc: String,
        prompt: String,
        indent: i64,
        level: i64,
    )
        ensures
            final(self).visible,
            final(self).content == content,
            final(self).pos == pos,
            final(self).firstc == firstc,
            final(self).prompt == prompt,
            final(self).indent == indent,
            final(self).level == level,
            final(self).special is None,
            final(self).block_visible == old(self).block_visible,
            final(self).block_lines == old(self).block_lines,
    {
        self.visible = true;
        self.content = content;
        self.pos = pos;
        self.firstc = firstc;
        self.prompt = prompt;
        self.indent = indent;
        self.level = level;
        self.special = None;
    }

    /// `cmdline_pos`: the cursor moved inside the prompt.
    pub fn set_pos(&mut self, pos: i64, level: i64)
        ensures
            *final(self) == (Cmdline { pos, level, ..*old(self) }),
    {
        self.pos = pos;
        self.level = level;
    }

    /// `cmdline_special_char`: show a pending special character at the cursor.
    pub fn set_special(&mut self, ch: char, shift: bool)
        ensures
            *final(self) == (Cmdline { special: Some(SpecialChar { ch, shift }), ..*old(self) }),
    {
        self.special = Some(SpecialChar { ch, shift });
    }

    /// `cmdline_hide`: the overlay disappears; block lines are governed by
    /// their own events and stay.
    pub fn dismiss(&mut self)
        ensures
            *final(self) == (Cmdline { visible: false, ..*old(self) }),
    {
        self.visible = false;
    }

    /// `cmdline_block_show`: start showing the block of continuation lines.
    pub fn block_show(&mut self, lines: Vec<Vec<ContentChunk>>)
        ensures
            *final(self) == (Cmdline { block_visible: true, block_lines: lines, ..*old(self) }),
    {
        self.block_visible = true;
        self.block_lines = lines;
    }

    /// `cmdline_block_append`: one more line; between `block_show` and
    /// `block_hide` the block only ever grows.
    pub fn block_append(&mut self, line: Vec<ContentChunk>)
        ensures
            final(self).block_lines@ == old(self).block_lines@.push(line),
            final(self).visible == old(self).visible,
            final(self).content == old(self).content,
            final(self).pos == old(self).pos,
            final(self).firstc == old(self).firstc,
            final(self).prompt == old(self).prompt,
            final(self).indent == old(self).indent,
            final(self).level == old(self).level,
            final(self).special == old(self).special,
            final(self).block_visible == old(self).block_visible,
    {
        self.block_lines.push(line);
    }

    /// `cmdline_block_hide`: the block disappears and its lines are dropped.
    pub fn block_hide(&mut self)
        ensures
            final(self).block_lines@.len() == 0,
            !final(self).block_visible,
            final(self).visible == old(self).visible,
            final(self).content == old(self).content,
            final(self).pos == old(self).pos,
            final(self).firstc == old(self).firstc,
            final(self).prompt == old(self).prompt,
            final(self).indent == old(self).indent,
            final(self).level == old(self).level,
            final(self).special == old(self).special,
    {
        self.block_visible = false;
        self.block_lines = Vec::new();
    }
}

} // verus!
