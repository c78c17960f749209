use gridui::event::Fatal;
use gridui::grid::{AnchorCorner, InputCell, WinState};
use gridui::grids::GridStore;

#[test]
fn events_on_undeclared_grids_are_fatal() {
    let mut s = GridStore::new();
    assert_eq!(
        s.line(7, 0, 0, &vec![InputCell { ch: 'a', hl: Some(0), repeat: 1 }]),
        Err(Fatal::UnknownGrid { grid: 7 })
    );
    assert_eq!(s.clear(7), Err(Fatal::UnknownGrid { grid: 7 }));
    assert_eq!(s.scroll(7, 0, 1, 0, 1, 1), Err(Fatal::UnknownGrid { grid: 7 }));
    assert_eq!(s.cursor_goto(7, 0, 0), Err(Fatal::UnknownGrid { grid: 7 }));
    assert_eq!(s.destroy(7), Err(Fatal::UnknownGrid { grid: 7 }));
}

#[test]
fn resize_creates_on_first_sight() {
    let mut s = GridStore::new();
    assert!(s.get(7).is_none());
    s.resize(7, 4, 2);
    let g = s.get(7).unwrap();
    assert_eq!(g.width, 4);
    assert_eq!(g.height, 2);
    assert_eq!(s.clear(7), Ok(()));
}

#[test]
fn destroying_the_root_grid_is_fatal() {
    let mut s = GridStore::new();
    assert_eq!(s.destroy(1), Err(Fatal::ReservedGrid { grid: 1 }));
    assert!(s.get(1).is_some());
}

#[test]
fn destroy_hides_floats_anchored_to_the_dead_grid() {
    let mut s = GridStore::new();
    s.resize(2, 10, 10);
    s.resize(3, 4, 2);
    s.resize(4, 4, 2);
    assert_eq!(
        s.set_win(
            3,
            WinState::Float { anchor_grid: 2, corner: AnchorCorner::NorthWest, row: 1, col: 1 }
        ),
        Ok(())
    );
    assert_eq!(
        s.set_win(
            4,
            WinState::Float { anchor_grid: 1, corner: AnchorCorner::NorthWest, row: 0, col: 0 }
        ),
        Ok(())
    );
    assert_eq!(s.destroy(2), Ok(()));
    assert!(s.get(2).is_none());
    // the orphaned float reports itself hidden on the next query
    assert_eq!(s.get(3).unwrap().win, WinState::Hidden);
    // a float anchored elsewhere is untouched
    assert!(matches!(s.get(4).unwrap().win, WinState::Float { anchor_grid: 1, .. }));
}

#[test]
fn cursor_goto_sets_the_current_grid_pointer() {
    let mut s = GridStore::new();
    s.resize(2, 8, 8);
    assert_eq!(s.cursor_goto(2, 3, 5), Ok(()));
    assert_eq!(s.current_grid, 2);
    let g = s.get(2).unwrap();
    assert_eq!((g.cursor_row, g.cursor_col), (3, 5));
}
