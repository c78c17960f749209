//! Colors and highlight attributes: the reconciled palette that the renderer
//! reads at each flush boundary.

use vstd::prelude::*;

verus! {

/// A 24-bit RGB color, one byte per channel.
#[derive(Clone, Copy, PartialEq, Eq, Debug)]
pub struct Color {
    pub r: u8,
    pub g: u8,
    pub b: u8,
}

/// The color packed in the low 24 bits of a protocol integer. Values outside
/// the 24-bit range (the protocol sends `-1` for "unset") fall back to black.
pub open spec fn spec_color_from_i64(v: i64) -> Color {
    if 0 <= v <= 0xFFFFFF {
        Color { r: (v / 0x10000) as u8, g: ((v / 0x100) % 0x100) as u8, b: (v % 0x100) as u8 }
    } else {
        Color { r: 0, g: 0, b: 0 }
    }
}

impl Color {
    /// Unpack a color from a protocol integer.
    pub fn from_i64(v: i64) -> (c: Color)
        ensures
            c == spec_color_from_i64(v),
    {
        if 0 <= v && v <= 0xFFFFFF {
            let r = (v / 0x10000) as u8;
            let g = ((v / 0x100) % 0x100) as u8;
            let b = (v % 0x100) as u8;
            Color { r, g, b }
        } else {
            Color { r: 0, g: 0, b: 0 }
        }
    }

    /// Black; the fallback wherever the protocol has not supplied a color.
    pub fn default_black() -> (c: Color)
        ensures
            c == (Color { r: 0, g: 0, b: 0 }),
    {
        Color { r: 0, g: 0, b: 0 }
    }
}

/// Highlight attributes for one highlight id: optional colors (a missing one
/// inherits the corresponding default) and the style flags the renderer
/// consumes. The core only stores and forwards the flags.
#[derive(Clone, Copy, PartialEq, Eq, Debug)]
pub struct HlAttr {
    pub foreground: Option<Color>,
    pub background: Option<Color>,
    pub special: Option<Color>,
    pub reverse: bool,
    pub italic: bool,
    pub bold: bool,
    pub strikethrough: bool,
    pub underline: bool,
    pub undercurl: bool,
}

impl HlAttr {
    /// The attribute set of highlight id `0`: everything inherited, no styling.
    pub fn empty() -> (a: HlAttr)
        ensures
            a == HlAttr::spec_empty(),
    {
        HlAttr {
            foreground: None,
            background: None,
            special: None,
            reverse: false,
            italic: false,
            bold: false,
            strikethrough: false,
            underline: false,
            undercurl: false,
        }
    }

    pub open spec fn spec_empty() -> HlAttr {
        HlAttr {
            foreground: None,
            background: None,
            special: None,
            reverse: false,
            italic: false,
            bold: false,
            strikethrough: false,
            underline: false,
            undercurl: false,
        }
    }
}

/// The table of highlight attributes keyed by highlight id. Definitions are
/// only ever superseded, never deleted; id `0` is reserved for "default".
pub struct AttrTable {
    pub entries: Vec<(i64, HlAttr)>,
}

impl AttrTable {
    /// Every id occurs at most once, so lookups are unambiguous.
    pub open spec fn wf(self) -> bool {
        forall|i: int, j: int|
            0 <= i < j < self.entries@.len() ==> (#[trigger] self.entries@[i]).0 != (
            #[trigger] self.entries@[j]).0
    }

    pub open spec fn spec_index_of(self, id: i64) -> int {
        choose|i: int| 0 <= i < self.entries@.len() && (#[trigger] self.entries@[i]).0 == id
    }
}

impl View for AttrTable {
    type V = Map<i64, HlAttr>;

    open spec fn view(&self) -> Map<i64, HlAttr> {
        Map::new(
            |id: i64|
                exists|i: int|
                    0 <= i < self.entries@.len() && (#[trigger] self.entries@[i]).0 == id,
            |id: i64| self.entries@[self.spec_index_of(id)].1,
        )
    }
}

impl AttrTable {
    pub fn new() -> (t: AttrTable)
        ensures
            t.wf(),
            t@ == Map::<i64, HlAttr>::empty(),
    {
        let t = AttrTable { entries: Vec::new() };
        proof {
            assert(t@ =~= Map::<i64, HlAttr>::empty());
        }
        t
    }

    /// Define or supersede the attributes of `id`.
    pub fn set(&mut self, id: i64, attr: HlAttr)
        requires
            old(self).wf(),
        ensures
            final(self).wf(),
            final(self)@ == old(self)@.insert(id, attr),
    {
        let ghost pre = *self;
        let mut i: usize = 0;
        while i < self.entries.len()
            invariant
                *self == pre,
                0 <= i <= self.entries@.len(),
                forall|j: int| 0 <= j < i ==> (#[trigger] self.entries@[j]).0 != id,
            decreases self.entries@.len() - i,
        {
            if self.entries[i].0 == id {
                self.entries.set(i, (id, attr));
                proof {
                    assert(forall|k: int|
                        0 <= k < self.entries@.len() && k != i ==> self.entries@[k]
                            == pre.entries@[k]);
                    assert forall|k: int| 0 <= k < self.entries@.len() implies (
                    #[trigger] self.entries@[k]).0 == pre.entries@[k].0 by {
                        if k == i as int {
                            assert(pre.entries@[k].0 == id);
                        }
                    }
                    assert(self.wf());
                    lemma_unique_index(self.entries@, id, i as int);
                    assert(self@ =~= pre@.insert(id, attr)) by {
                        assert forall|k: i64| self@.dom().contains(k) implies pre@.insert(
                            id,
                            attr,
                        ).dom().contains(k) && self@[k] == pre@.insert(id, attr)[k] by {
                            let w = self.spec_index_of(k);
                            assert(0 <= w < self.entries@.len() && self.entries@[w].0 == k);
                            if k == id {
                                lemma_unique_index(self.entries@, id, i as int);
                            } else {
                                assert(pre.entries@[w].0 == k);
                                lemma_unique_index(pre.entries@, k, w);
                            }
                        }
                        assert forall|k: i64| pre@.insert(id, attr).dom().contains(
                            k,
                        ) implies self@.dom().contains(k) by {
                            if k == id {
                                assert(self.entries@[i as int].0 == id);
                            } else {
                                let w = pre.spec_index_of(k);
                                assert(pre.entries@[w].0 == k);
                                assert(self.entries@[w].0 == k);
                            }
                        }
                    }
                }
                return ;
            }
            i = i + 1;
        }
        self.entries.push((id, attr));
        proof {
            assert(forall|k: int|
                0 <= k < pre.entries@.len() ==> self.entries@[k] == pre.entries@[k]);
            assert(self.entries@.last() == (id, attr));
            assert(self@ =~= pre@.insert(id, attr)) by {
                assert forall|k: i64| self@.dom().contains(k) implies pre@.insert(
                    id,
                    attr,
                ).dom().contains(k) && self@[k] == pre@.insert(id, attr)[k] by {
                    let w = self.spec_index_of(k);
                    assert(0 <= w < self.entries@.len() && self.entries@[w].0 == k);
                    if k == id {
                        lemma_unique_index(self.entries@, id, self.entries@.len() - 1);
                    } else {
                        assert(w < pre.entries@.len());
                        assert(pre.entries@[w].0 == k);
                        lemma_unique_index(pre.entries@, k, w);
                    }
                }
                assert forall|k: i64| pre@.insert(id, attr).dom().contains(
                    k,
                ) implies self@.dom().contains(k) by {
                    if k == id {
                        assert(self.entries@[self.entries@.len() - 1].0 == id);
                    } else {
                        let w = pre.spec_index_of(k);
                        assert(pre.entries@[w].0 == k);
                        assert(self.entries@[w].0 == k);
                    }
                }
            }
        }
    }

    /// Look the attributes of `id` up; `None` where nothing was ever defined.
    pub fn get(&self, id: i64) -> (r: Option<HlAttr>)
        requires
            self.wf(),
        ensures
            match r {
                Some(a) => self@.dom().contains(id) && self@[id] == a,
                None => !self@.dom().contains(id),
            },
    {
        let mut i: usize = 0;
        while i < self.entries.len()
            invariant
                0 <= i <= self.entries@.len(),
                self.wf(),
                forall|j: int| 0 <= j < i ==> (#[trigger] self.entries@[j]).0 != id,
            decreases self.entries@.len() - i,
        {
            if self.entries[i].0 == id {
                proof {
                    lemma_unique_index(self.entries@, id, i as int);
                }
                return Some(self.entries[i].1);
            }
            i = i + 1;
        }
        None
    }
}

/// The closed set of semantic highlight-group names whose overrides the theme
/// output is derived from.
#[derive(Clone, Copy, PartialEq, Eq, Debug)]
pub enum HlGroup {
    MenuSeparator,
    PopupMenu,
    PopupMenuSelection,
    PopupMenuScrollbar,
    PopupMenuThumb,
    Tabline,
    TablineFill,
    TablineSelected,
    Menu,
}

/// The semantic group a protocol highlight-group name stands for; `None` for
/// the many group names the theme output does not derive from.
pub open spec fn spec_hl_group_of_name(s: Seq<char>) -> Option<HlGroup> {
    if s == "WinSeparator"@ {
        Some(HlGroup::MenuSeparator)
    } else if s == "Pmenu"@ {
        Some(HlGroup::PopupMenu)
    } else if s == "PmenuSel"@ {
        Some(HlGroup::PopupMenuSelection)
    } else if s == "PmenuSbar"@ {
        Some(HlGroup::PopupMenuScrollbar)
    } else if s == "PmenuThumb"@ {
        Some(HlGroup::PopupMenuThumb)
    } else if s == "TabLine"@ {
        Some(HlGroup::Tabline)
    } else if s == "TabLineFill"@ {
        Some(HlGroup::TablineFill)
    } else if s == "TabLineSel"@ {
        Some(HlGroup::TablineSelected)
    } else if s == "Menu"@ {
        Some(HlGroup::Menu)
    } else {
        None
    }
}

/// Map a highlight-group name from the wire to the closed set the theme
/// derives from.
pub fn hl_group_from_name(s: &str) -> (r: Option<HlGroup>)
    ensures
        r == spec_hl_group_of_name(s@),
{
    if crate::text::str_eq(s, "WinSeparator") {
        Some(HlGroup::MenuSeparator)
    } else if crate::text::str_eq(s, "Pmenu") {
        Some(HlGroup::PopupMenu)
    } else if crate::text::str_eq(s, "PmenuSel") {
        Some(HlGroup::PopupMenuSelection)
    } else if crate::text::str_eq(s, "PmenuSbar") {
        Some(HlGroup::PopupMenuScrollbar)
    } else if crate::text::str_eq(s, "PmenuThumb") {
        Some(HlGroup::PopupMenuThumb)
    } else if crate::text::str_eq(s, "TabLine") {
        Some(HlGroup::Tabline)
    } else if crate::text::str_eq(s, "TabLineFill") {
        Some(HlGroup::TablineFill)
    } else if crate::text::str_eq(s, "TabLineSel") {
        Some(HlGroup::TablineSelected)
    } else if crate::text::str_eq(s, "Menu") {
        Some(HlGroup::Menu)
    } else {
        None
    }
}

/// Which highlight id each semantic group currently maps to; `None` until the
/// editor has set one, which must resolve to the safe default, not an error.
#[derive(Clone, Copy, PartialEq, Eq, Debug)]
pub struct GroupIds {
    pub menu_separator: Option<i64>,
    pub popup_menu: Option<i64>,
    pub popup_menu_selection: Option<i64>,
    pub popup_menu_scrollbar: Option<i64>,
    pub popup_menu_thumb: Option<i64>,
    pub tabline: Option<i64>,
    pub tabline_fill: Option<i64>,
    pub tabline_selected: Option<i64>,
    pub menu: Option<i64>,
}

impl GroupIds {
    pub open spec fn spec_group(self, g: HlGroup) -> Option<i64> {
        match g {
            HlGroup::MenuSeparator => self.menu_separator,
            HlGroup::PopupMenu => self.popup_menu,
            HlGroup::PopupMenuSelection => self.popup_menu_selection,
            HlGroup::PopupMenuScrollbar => self.popup_menu_scrollbar,
            HlGroup::PopupMenuThumb => self.popup_menu_thumb,
            HlGroup::Tabline => self.tabline,
            HlGroup::TablineFill => self.tabline_fill,
            HlGroup::TablineSelected => self.tabline_selected,
            HlGroup::Menu => self.menu,
        }
    }

    pub open spec fn spec_set_group(self, g: HlGroup, id: i64) -> GroupIds {
        match g {
            HlGroup::MenuSeparator => GroupIds { menu_separator: Some(id), ..self },
            HlGroup::PopupMenu => GroupIds { popup_menu: Some(id), ..self },
            HlGroup::PopupMenuSelection => GroupIds { popup_menu_selection: Some(id), ..self },
            HlGroup::PopupMenuScrollbar => GroupIds { popup_menu_scrollbar: Some(id), ..self },
            HlGroup::PopupMenuThumb => GroupIds { popup_menu_thumb: Some(id), ..self },
            HlGroup::Tabline => GroupIds { tabline: Some(id), ..self },
            HlGroup::TablineFill => GroupIds { tabline_fill: Some(id), ..self },
            HlGroup::TablineSelected => GroupIds { tabline_selected: Some(id), ..self },
            HlGroup::Menu => GroupIds { menu: Some(id), ..self },
        }
    }

    pub fn unset() -> (r: GroupIds)
        ensures
            forall|g: HlGroup| r.spec_group(g) is None,
    {
        GroupIds {
            menu_separator: None,
            popup_menu: None,
            popup_menu_selection: None,
            popup_menu_scrollbar: None,
            popup_menu_thumb: None,
            tabline: None,
            tabline_fill: None,
            tabline_selected: None,
            menu: None,
        }
    }

    pub fn set(&mut self, g: HlGroup, id: i64)
        ensures
            *final(self) == old(self).spec_set_group(g, id),
    {
        match g {
            HlGroup::MenuSeparator => self.menu_separator = Some(id),
            HlGroup::PopupMenu => self.popup_menu = Some(id),
            HlGroup::PopupMenuSelection => self.popup_menu_selection = Some(id),
            HlGroup::PopupMenuScrollbar => self.popup_menu_scrollbar = Some(id),
            HlGroup::PopupMenuThumb => self.popup_menu_thumb = Some(id),
            HlGroup::Tabline => self.tabline = Some(id),
            HlGroup::TablineFill => self.tabline_fill = Some(id),
            HlGroup::TablineSelected => self.tabline_selected = Some(id),
            HlGroup::Menu => self.menu = Some(id),
        }
    }

    pub fn get(&self, g: HlGroup) -> (r: Option<i64>)
        ensures
            r == self.spec_group(g),
    {
        match g {
            HlGroup::MenuSeparator => self.menu_separator,
            HlGroup::PopupMenu => self.popup_menu,
            HlGroup::PopupMenuSelection => self.popup_menu_selection,
            HlGroup::PopupMenuScrollbar => self.popup_menu_scrollbar,
            HlGroup::PopupMenuThumb => self.popup_menu_thumb,
            HlGroup::Tabline => self.tabline,
            HlGroup::TablineFill => self.tabline_fill,
            HlGroup::TablineSelected => self.tabline_selected,
            HlGroup::Menu => self.menu,
        }
    }
}

/// The mathematical model of the reconciled palette.
#[verifier::ext_equal]
pub ghost struct ColorsModel {
    pub fg: Color,
    pub bg: Color,
    pub sp: Color,
    pub attrs: Map<i64, HlAttr>,
    pub groups: GroupIds,
}

impl ColorsModel {
    /// Defining attributes for an id supersedes any earlier definition.
    pub open spec fn set_attr(self, id: i64, a: HlAttr) -> ColorsModel {
        ColorsModel { attrs: self.attrs.insert(id, a), ..self }
    }

    pub open spec fn set_group(self, g: HlGroup, id: i64) -> ColorsModel {
        ColorsModel { groups: self.groups.spec_set_group(g, id), ..self }
    }

    pub open spec fn set_defaults(self, fg: Color, bg: Color, sp: Color) -> ColorsModel {
        ColorsModel { fg: fg, bg: bg, sp: sp, ..self }
    }

    /// An id that was never defined resolves to the empty attribute set, as
    /// does the reserved id `0` until the editor redefines it.
    pub open spec fn attr_or_default(self, id: i64) -> HlAttr {
        if self.attrs.dom().contains(id) {
            self.attrs[id]
        } else {
            HlAttr::spec_empty()
        }
    }

    /// A group that was never bound resolves to the safe default attributes.
    pub open spec fn resolve_group(self, g: HlGroup) -> HlAttr {
        match self.groups.spec_group(g) {
            Some(id) => self.attr_or_default(id),
            None => HlAttr::spec_empty(),
        }
    }
}

/// The process-wide reconciled palette: default colors, the highlight
/// attribute table, and the semantic group overrides.
pub struct Colors {
    pub fg: Color,
    pub bg: Color,
    pub sp: Color,
    pub attrs: AttrTable,
    pub groups: GroupIds,
}

impl View for Colors {
    type V = ColorsModel;

    open spec fn view(&self) -> ColorsModel {
        ColorsModel {
            fg: self.fg,
            bg: self.bg,
            sp: self.sp,
            attrs: self.attrs@,
            groups: self.groups,
        }
    }
}

impl Colors {
    pub open spec fn wf(self) -> bool {
        self.attrs.wf()
    }

    /// Everything defaults to black and no attribute or group definitions.
    pub fn new() -> (c: Colors)
        ensures
            c.wf(),
            c@.fg == (Color { r: 0, g: 0, b: 0 }),
            c@.bg == (Color { r: 0, g: 0, b: 0 }),
            c@.sp == (Color { r: 0, g: 0, b: 0 }),
            c@.attrs == Map::<i64, HlAttr>::empty(),
            forall|g: HlGroup| c@.groups.spec_group(g) is None,
    {
        Colors {
            fg: Color::default_black(),
            bg: Color::default_black(),
            sp: Color::default_black(),
            attrs: AttrTable::new(),
            groups: GroupIds::unset(),
        }
    }

    /// The `default_colors_set` update: replace the default palette.
    pub fn set_defaults(&mut self, fg: i64, bg: i64, sp: i64)
        requires
            old(self).wf(),
        ensures
            final(self).wf(),
            final(self)@ == old(self)@.set_defaults(
                spec_color_from_i64(fg),
                spec_color_from_i64(bg),
                spec_color_from_i64(sp),
            ),
    {
        self.fg = Color::from_i64(fg);
        self.bg = Color::from_i64(bg);
        self.sp = Color::from_i64(sp);
    }

    /// The `hl_attr_define` update: define or supersede one highlight id.
    pub fn define_attr(&mut self, id: i64, a: HlAttr)
        requires
            old(self).wf(),
        ensures
            final(self).wf(),
            final(self)@ == old(self)@.set_attr(id, a),
    {
        self.attrs.set(id, a);
    }

    /// The `hl_group_set` update: bind a semantic group to a highlight id.
    pub fn set_group(&mut self, g: HlGroup, id: i64)
        requires
            old(self).wf(),
        ensures
            final(self).wf(),
            final(self)@ == old(self)@.set_group(g, id),
    {
        self.groups.set(g, id);
    }

    /// Resolve one highlight id, falling back to the safe default.
    pub fn attr_or_default(&self, id: i64) -> (r: HlAttr)
        requires
            self.wf(),
        ensures
            r == self@.attr_or_default(id),
    {
        match self.attrs.get(id) {
            Some(a) => a,
            None => HlAttr::empty(),
        }
    }

    /// Resolve one semantic group, falling back to the safe default.
    pub fn resolve_group(&self, g: HlGroup) -> (r: HlAttr)
        requires
            self.wf(),
        ensures
            r == self@.resolve_group(g),
    {
        match self.groups.get(g) {
            Some(id) => self.attr_or_default(id),
            None => HlAttr::empty(),
        }
    }
}

/// The derived style output regenerated at a flush whose batch changed any
/// theme-affecting state: the default palette plus the resolved attributes of
/// every semantic group.
#[derive(Clone, Copy, PartialEq, Eq, Debug)]
pub struct Theme {
    pub fg: Color,
    pub bg: Color,
    pub sp: Color,
    pub menu_separator: HlAttr,
    pub popup_menu: HlAttr,
    pub popup_menu_selection: HlAttr,
    pub popup_menu_scrollbar: HlAttr,
    pub popup_menu_thumb: HlAttr,
    pub tabline: HlAttr,
    pub tabline_fill: HlAttr,
    pub tabline_selected: HlAttr,
    pub menu: HlAttr,
}

/// What the derived style output is as a function of the palette model.
pub open spec fn spec_theme_of(m: ColorsModel) -> Theme {
    Theme {
        fg: m.fg,
        bg: m.bg,
        sp: m.sp,
        menu_separator: m.resolve_group(HlGroup::MenuSeparator),
        popup_menu: m.resolve_group(HlGroup::PopupMenu),
        popup_menu_selection: m.resolve_group(HlGroup::PopupMenuSelection),
        popup_menu_scrollbar: m.resolve_group(HlGroup::PopupMenuScrollbar),
        popup_menu_thumb: m.resolve_group(HlGroup::PopupMenuThumb),
        tabline: m.resolve_group(HlGroup::Tabline),
        tabline_fill: m.resolve_group(HlGroup::TablineFill),
        tabline_selected: m.resolve_group(HlGroup::TablineSelected),
        menu: m.resolve_group(HlGroup::Menu),
    }
}

impl Colors {
    /// Regenerate the derived style output from the current palette.
    pub fn derive_theme(&self) -> (t: Theme)
        requires
            self.wf(),
        ensures
            t == spec_theme_of(self@),
    {
        Theme {
            fg: self.fg,
            bg: self.bg,
            sp: self.sp,
            menu_separator: self.resolve_group(HlGroup::MenuSeparator),
            popup_menu: self.resolve_group(HlGroup::PopupMenu),
            popup_menu_selection: self.resolve_group(HlGroup::PopupMenuSelection),
            popup_menu_thumb: self.resolve_group(HlGroup::PopupMenuThumb),
            popup_menu_scrollbar: self.resolve_group(HlGroup::PopupMenuScrollbar),
            tabline: self.resolve_group(HlGroup::Tabline),
            tabline_fill: self.resolve_group(HlGroup::TablineFill),
            tabline_selected: self.resolve_group(HlGroup::TablineSelected),
            menu: self.resolve_group(HlGroup::Menu),
        }
    }
}

/// Within one batch, a group binding and an attribute definition for the id it
/// binds may arrive in either order: the theme derived at the flush is the
/// same either way.
pub proof fn lemma_group_and_attr_commute(m: ColorsModel, g: HlGroup, id: i64, a: HlAttr)
    ensures
        spec_theme_of(m.set_group(g, id).set_attr(id, a)) == spec_theme_of(
            m.set_attr(id, a).set_group(g, id),
        ),
{
    assert(m.set_group(g, id).set_attr(id, a) =~~= m.set_attr(id, a).set_group(g, id));
}

/// Once a batch binds a group to an id and defines that id's attributes, in
/// either order, the flush derives that group's style from those attributes.
pub proof fn lemma_bound_group_resolves_to_defined_attrs(
    m: ColorsModel,
    g: HlGroup,
    id: i64,
    a: HlAttr,
)
    ensures
        m.set_group(g, id).set_attr(id, a).resolve_group(g) == a,
        m.set_attr(id, a).set_group(g, id).resolve_group(g) == a,
{
}

/// Redefining the same highlight id within one batch is not order-free: the
/// last definition before the flush wins.
pub proof fn lemma_attr_redefinition_last_wins(m: ColorsModel, id: i64, a1: HlAttr, a2: HlAttr)
    ensures
        m.set_attr(id, a1).set_attr(id, a2) =~~= m.set_attr(id, a2),
        spec_theme_of(m.set_attr(id, a1).set_attr(id, a2)) == spec_theme_of(m.set_attr(id, a2)),
{
    assert(m.set_attr(id, a1).set_attr(id, a2) =~~= m.set_attr(id, a2));
}

/// In a duplicate-free association list the witness index of a key is the only
/// index holding it.
proof fn lemma_unique_index(s: Seq<(i64, HlAttr)>, id: i64, i: int)
    requires
        forall|p: int, q: int|
            0 <= p < q < s.len() ==> (#[trigger] s[p]).0 != (#[trigger] s[q]).0,
        0 <= i < s.len(),
        s[i].0 == id,
    ensures
        (choose|j: int| 0 <= j < s.len() && (#[trigger] s[j]).0 == id) == i,
{
    let j = choose|j: int| 0 <= j < s.len() && (#[trigger] s[j]).0 == id;
    if j < i {
        assert(s[j].0 != s[i].0);
    } else if j > i {
        assert(s[i].0 != s[j].0);
    }
}

} // verus!
