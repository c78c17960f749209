use gridui::event::{PopupmenuItem, UiEvent};
use gridui::popupmenu::{PopupHost, Popupmenu};
use gridui::state::UiState;

fn items(n: usize) -> Vec<PopupmenuItem> {
    let mut v = Vec::new();
    for i in 0..n {
        v.push(PopupmenuItem {
            word: format!("w{}", i),
            kind: String::new(),
            menu: String::new(),
            info: String::new(),
        });
    }
    v
}

#[test]
fn items_materialize_in_batches_of_forty() {
    let mut p = Popupmenu::new();
    p.show(items(100), -1, 0, 0, 2);
    assert_eq!(p.shown.len(), 40);
    assert_eq!(p.pending.len(), 60);
    let more = p.materialize_step();
    assert!(more);
    assert_eq!(p.shown.len(), 80);
    let more = p.materialize_step();
    assert!(!more);
    assert_eq!(p.shown.len(), 100);
    assert_eq!(p.pending.len(), 0);
    // order was kept
    assert_eq!(p.shown[0].word, "w0");
    assert_eq!(p.shown[99].word, "w99");
}

#[test]
fn selection_is_judged_against_the_declared_count() {
    let mut p = Popupmenu::new();
    p.show(items(45), 44, 0, 0, 2);
    // only 40 items are materialized, but index 44 is declared
    assert_eq!(p.shown.len(), 40);
    assert_eq!(p.selection_to_highlight(), Some(44));
    p.select(45);
    assert_eq!(p.selection_to_highlight(), None);
}

#[test]
fn grid_id_minus_one_selects_the_cmdline_host() {
    let mut p = Popupmenu::new();
    p.show(items(3), -1, 0, 0, -1);
    assert_eq!(p.host, PopupHost::Cmdline);
    p.show(items(3), -1, 4, 7, 2);
    assert_eq!(p.host, PopupHost::Grid { grid: 2, row: 4, col: 7 });
}

#[test]
fn select_and_hide_route_to_the_cmdline_hosted_popup() {
    let mut s = UiState::new();
    // a command-line-hosted popup is visible
    s.apply(UiEvent::PopupmenuShow { items: items(5), selected: -1, row: 0, col: 0, grid: -1 })
        .unwrap();
    assert!(s.popupmenu.visible);
    assert_eq!(s.popupmenu.host, PopupHost::Cmdline);

    // select and hide act on that popup: the host never flips to a grid anchor
    s.apply(UiEvent::PopupmenuSelect { selected: 2 }).unwrap();
    assert_eq!(s.popupmenu.host, PopupHost::Cmdline);
    assert_eq!(s.popupmenu.selected, Some(2));

    s.apply(UiEvent::PopupmenuHide).unwrap();
    assert!(!s.popupmenu.visible);
    assert_eq!(s.popupmenu.host, PopupHost::Cmdline);
}

#[test]
fn set_items_replaces_the_list_without_touching_the_host() {
    let mut p = Popupmenu::new();
    p.show(items(5), 1, 3, 4, 2);
    p.set_items(items(50));
    assert_eq!(p.shown.len(), 40);
    assert_eq!(p.pending.len(), 10);
    assert_eq!(p.selected, Some(1));
    assert_eq!(p.host, PopupHost::Grid { grid: 2, row: 3, col: 4 });
    assert!(p.visible);
}

#[test]
fn default_model_is_empty_and_hidden() {
    let p = Popupmenu::default();
    assert!(!p.visible);
    assert_eq!(p.shown.len(), 0);
    assert_eq!(p.pending.len(), 0);
    assert_eq!(p.selected, None);
}

#[test]
fn select_without_a_menu_is_a_no_op() {
    let mut p = Popupmenu::new();
    p.select(3);
    assert_eq!(p.selected, None);
    assert!(!p.visible);
}
