use gridui::color::{Color, HlAttr, HlGroup};
use gridui::event::{CursorShape, Fatal, ModeInfo, OptionValue, UiEvent};
use gridui::state::UiState;

fn mode(shape: CursorShape) -> ModeInfo {
    ModeInfo { shape, cell_percentage: 0, blinkwait: 0, blinkon: 0, blinkoff: 0, attr_id: 0 }
}

#[test]
fn default_colors_then_flush_scenario() {
    let mut s = UiState::new();

    // default_colors_set(fg=0xffffff, bg=0x000000, sp=0x0), then flush
    let r = s.apply(UiEvent::DefaultColorsSet { fg: 0xffffff, bg: 0x000000, sp: 0x0 });
    assert_eq!(r, Ok(None));
    assert!(s.theme_dirty);

    let outcome = s.apply(UiEvent::Flush).unwrap().unwrap();
    let theme = outcome.theme.expect("theme-dirty flush regenerates the theme");
    assert_eq!(theme.fg, Color { r: 255, g: 255, b: 255 });
    assert_eq!(theme.bg, Color { r: 0, g: 0, b: 0 });
    assert_eq!(theme.sp, Color { r: 0, g: 0, b: 0 });
    assert!(!s.theme_dirty);
    assert!(!s.geometry_dirty);

    // option_set("linespace", 4), no flush yet
    let r = s.apply(UiEvent::OptionSet { option: OptionValue::Linespace(4) });
    assert_eq!(r, Ok(None));
    assert!(s.geometry_dirty);
    assert!(s.theme_dirty);
    assert_eq!(s.colors.fg, Color { r: 255, g: 255, b: 255 });
    assert_eq!(s.colors.bg, Color { r: 0, g: 0, b: 0 });

    // then flush: both flags false
    let outcome = s.apply(UiEvent::Flush).unwrap().unwrap();
    assert!(outcome.resize_needed);
    assert!(!s.geometry_dirty);
    assert!(!s.theme_dirty);
}

#[test]
fn mode_change_out_of_range_is_fatal_not_clamped() {
    let mut s = UiState::new();
    let styles = vec![mode(CursorShape::Block), mode(CursorShape::Vertical)];
    assert_eq!(s.apply(UiEvent::ModeInfoSet { cursor_styles: styles }), Ok(None));
    assert_eq!(s.apply(UiEvent::ModeChange { idx: 1 }), Ok(None));
    assert_eq!(s.current_mode, 1);
    assert_eq!(
        s.apply(UiEvent::ModeChange { idx: 2 }),
        Err(Fatal::InvalidModeIndex { idx: 2, len: 2 })
    );
    assert_eq!(
        s.apply(UiEvent::ModeChange { idx: -1 }),
        Err(Fatal::InvalidModeIndex { idx: -1, len: 2 })
    );
    // the failed change left the mode alone
    assert_eq!(s.current_mode, 1);
    assert_eq!(s.current_mode_info().unwrap().shape, CursorShape::Vertical);
}

#[test]
fn no_mode_info_before_the_first_mode_info_set() {
    let s = UiState::new();
    assert!(s.current_mode_info().is_none());
}

#[test]
fn unrecognized_event_names_are_fatal() {
    let mut s = UiState::new();
    let r = s.apply(UiEvent::Unrecognized { name: String::from("grid_sparkle") });
    assert_eq!(r, Err(Fatal::UnrecognizedEvent { name: String::from("grid_sparkle") }));
}

#[test]
fn harmless_events_are_accepted_and_ignored() {
    let mut s = UiState::new();
    assert_eq!(s.apply(UiEvent::SetIcon { icon: String::from("icon") }), Ok(None));
    assert_eq!(s.apply(UiEvent::MouseOn), Ok(None));
    assert_eq!(s.apply(UiEvent::Bell), Ok(None));
    assert_eq!(s.apply(UiEvent::WinViewport { grid: 99 }), Ok(None));
    assert_eq!(
        s.apply(UiEvent::OptionSet { option: OptionValue::Unknown(String::from("mousetime")) }),
        Ok(None)
    );
    assert!(!s.geometry_dirty && !s.theme_dirty);
}

#[test]
fn title_busy_and_tabline_state() {
    let mut s = UiState::new();
    assert_eq!(s.apply(UiEvent::SetTitle { title: String::from("main.rs") }), Ok(None));
    assert_eq!(s.title, "main.rs");
    assert_eq!(s.apply(UiEvent::BusyStart), Ok(None));
    assert!(s.busy);
    assert_eq!(s.apply(UiEvent::BusyStop), Ok(None));
    assert!(!s.busy);
}

#[test]
fn group_set_before_or_after_attr_define_flushes_the_same_theme() {
    let mut bold = HlAttr::empty();
    bold.bold = true;

    let mut s1 = UiState::new();
    s1.apply(UiEvent::HlGroupSet { group: Some(HlGroup::PopupMenu), id: 5 }).unwrap();
    s1.apply(UiEvent::HlAttrDefine { id: 5, attrs: bold }).unwrap();
    let t1 = s1.apply(UiEvent::Flush).unwrap().unwrap().theme.unwrap();

    let mut s2 = UiState::new();
    s2.apply(UiEvent::HlAttrDefine { id: 5, attrs: bold }).unwrap();
    s2.apply(UiEvent::HlGroupSet { group: Some(HlGroup::PopupMenu), id: 5 }).unwrap();
    let t2 = s2.apply(UiEvent::Flush).unwrap().unwrap().theme.unwrap();

    assert_eq!(t1, t2);
    assert_eq!(t1.popup_menu, bold);
}

#[test]
fn positioning_events_check_grid_and_anchor() {
    let mut s = UiState::new();
    assert_eq!(
        s.apply(UiEvent::GridResize { grid: 2, width: 10, height: 5 }),
        Ok(None)
    );
    // unknown anchor grid is fatal
    assert_eq!(
        s.apply(UiEvent::WinPos { grid: 2, anchor_grid: 9, row: 0, col: 0, width: 10, height: 5 }),
        Err(Fatal::UnknownGrid { grid: 9 })
    );
    // unknown positioned grid is fatal, and reported first
    assert_eq!(
        s.apply(UiEvent::WinHide { grid: 8 }),
        Err(Fatal::UnknownGrid { grid: 8 })
    );
    assert_eq!(
        s.apply(UiEvent::WinPos { grid: 2, anchor_grid: 1, row: 0, col: 0, width: 10, height: 5 }),
        Ok(None)
    );
}
