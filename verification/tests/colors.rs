use gridui::color::{hl_group_from_name, Color, Colors, HlAttr, HlGroup};

fn attr_with_bold() -> HlAttr {
    let mut a = HlAttr::empty();
    a.bold = true;
    a
}

#[test]
fn color_from_i64_unpacks_channels() {
    assert_eq!(Color::from_i64(0xffffff), Color { r: 255, g: 255, b: 255 });
    assert_eq!(Color::from_i64(0x000000), Color { r: 0, g: 0, b: 0 });
    assert_eq!(Color::from_i64(0xff8040), Color { r: 0xff, g: 0x80, b: 0x40 });
    assert_eq!(Color::from_i64(-1), Color { r: 0, g: 0, b: 0 });
    assert_eq!(Color::from_i64(0x1000000), Color { r: 0, g: 0, b: 0 });
}

#[test]
fn attr_definitions_supersede() {
    let mut c = Colors::new();
    let mut a1 = HlAttr::empty();
    a1.italic = true;
    let mut a2 = HlAttr::empty();
    a2.reverse = true;
    c.define_attr(5, a1);
    c.define_attr(5, a2);
    assert_eq!(c.attr_or_default(5), a2);
}

#[test]
fn unset_lookups_resolve_to_safe_default() {
    let c = Colors::new();
    assert_eq!(c.attr_or_default(7), HlAttr::empty());
    assert_eq!(c.resolve_group(HlGroup::PopupMenu), HlAttr::empty());
    let t = c.derive_theme();
    assert_eq!(t.popup_menu, HlAttr::empty());
    assert_eq!(t.fg, Color { r: 0, g: 0, b: 0 });
}

#[test]
fn group_names_map_to_the_closed_set() {
    assert_eq!(hl_group_from_name("Pmenu"), Some(HlGroup::PopupMenu));
    assert_eq!(hl_group_from_name("PmenuSel"), Some(HlGroup::PopupMenuSelection));
    assert_eq!(hl_group_from_name("PmenuSbar"), Some(HlGroup::PopupMenuScrollbar));
    assert_eq!(hl_group_from_name("PmenuThumb"), Some(HlGroup::PopupMenuThumb));
    assert_eq!(hl_group_from_name("TabLine"), Some(HlGroup::Tabline));
    assert_eq!(hl_group_from_name("TabLineFill"), Some(HlGroup::TablineFill));
    assert_eq!(hl_group_from_name("TabLineSel"), Some(HlGroup::TablineSelected));
    assert_eq!(hl_group_from_name("Menu"), Some(HlGroup::Menu));
    assert_eq!(hl_group_from_name("WinSeparator"), Some(HlGroup::MenuSeparator));
    assert_eq!(hl_group_from_name("Normal"), None);
    assert_eq!(hl_group_from_name(""), None);
}

#[test]
fn group_and_attr_order_is_immaterial_for_distinct_writes() {
    let a = attr_with_bold();

    let mut c1 = Colors::new();
    c1.set_group(HlGroup::PopupMenu, 5);
    c1.define_attr(5, a);

    let mut c2 = Colors::new();
    c2.define_attr(5, a);
    c2.set_group(HlGroup::PopupMenu, 5);

    assert_eq!(c1.derive_theme(), c2.derive_theme());
    assert_eq!(c1.derive_theme().popup_menu, a);
}

#[test]
fn same_id_redefinition_last_write_wins() {
    let mut a1 = HlAttr::empty();
    a1.bold = true;
    let mut a2 = HlAttr::empty();
    a2.underline = true;

    let mut c = Colors::new();
    c.set_group(HlGroup::PopupMenu, 5);
    c.define_attr(5, a1);
    c.define_attr(5, a2);
    assert_eq!(c.derive_theme().popup_menu, a2);
}
