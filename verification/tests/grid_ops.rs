use gridui::grid::{blank_cell, expand_cells, Cell, Grid, InputCell};

fn cell(ch: char, hl: i64) -> InputCell {
    InputCell { ch, hl: Some(hl), repeat: 1 }
}

#[test]
fn expansion_resolves_repeats_and_inherited_highlights() {
    let input = vec![
        InputCell { ch: 'a', hl: Some(3), repeat: 2 },
        InputCell { ch: 'b', hl: None, repeat: 1 },
        InputCell { ch: 'c', hl: Some(7), repeat: 3 },
    ];
    let run = expand_cells(&input);
    let expect = vec![
        Cell { ch: 'a', hl: 3 },
        Cell { ch: 'a', hl: 3 },
        Cell { ch: 'b', hl: 3 },
        Cell { ch: 'c', hl: 7 },
        Cell { ch: 'c', hl: 7 },
        Cell { ch: 'c', hl: 7 },
    ];
    assert_eq!(run, expect);
}

#[test]
fn resize_then_write_reads_back_exactly() {
    let mut g = Grid::new(1, 10, 3);
    let run = expand_cells(&vec![cell('h', 2), cell('i', 2)]);
    g.write_line(1, 4, &run);
    assert_eq!(g.rows[1][4], Cell { ch: 'h', hl: 2 });
    assert_eq!(g.rows[1][5], Cell { ch: 'i', hl: 2 });
    // every cell never written stays blank
    for r in 0..3 {
        for c in 0..10 {
            if !(r == 1 && (c == 4 || c == 5)) {
                assert_eq!(g.rows[r][c], blank_cell());
            }
        }
    }
}

#[test]
fn out_of_bounds_writes_are_clipped_not_errors() {
    let mut g = Grid::new(1, 4, 2);
    let run = expand_cells(&vec![cell('x', 1), cell('y', 1), cell('z', 1)]);
    // run starts inside and leaves the row: the tail is clipped
    g.write_line(0, 2, &run);
    assert_eq!(g.rows[0][2], Cell { ch: 'x', hl: 1 });
    assert_eq!(g.rows[0][3], Cell { ch: 'y', hl: 1 });
    // a row below the grid is ignored entirely
    g.write_line(9, 0, &run);
    // a start beyond the width writes nothing
    g.write_line(1, 7, &run);
    for c in 0..4 {
        assert_eq!(g.rows[1][c], blank_cell());
    }
}

#[test]
fn resize_blanks_and_zero_dimensions_are_legal() {
    let mut g = Grid::new(1, 2, 2);
    let run = expand_cells(&vec![cell('q', 1)]);
    g.write_line(0, 0, &run);
    g.resize(3, 1);
    assert_eq!(g.width, 3);
    assert_eq!(g.height, 1);
    for c in 0..3 {
        assert_eq!(g.rows[0][c], blank_cell());
    }
    g.resize(0, 0);
    assert_eq!(g.rows.len(), 0);
}

#[test]
fn clear_blanks_every_cell() {
    let mut g = Grid::new(1, 3, 2);
    let run = expand_cells(&vec![cell('m', 4), cell('n', 4)]);
    g.write_line(0, 0, &run);
    g.clear();
    for r in 0..2 {
        for c in 0..3 {
            assert_eq!(g.rows[r][c], blank_cell());
        }
    }
}

#[test]
fn scroll_moves_rows_up_and_blanks_vacated_cells() {
    // 1 column x 4 rows holding a, b, c, d
    let mut g = Grid::new(1, 1, 4);
    for (r, ch) in ['a', 'b', 'c', 'd'].iter().enumerate() {
        let run = expand_cells(&vec![cell(*ch, 0)]);
        g.write_line(r as i64, 0, &run);
    }
    // scroll the whole grid up by one: content moves up
    g.scroll(0, 4, 0, 1, 1);
    assert_eq!(g.rows[0][0].ch, 'b');
    assert_eq!(g.rows[1][0].ch, 'c');
    assert_eq!(g.rows[2][0].ch, 'd');
    assert_eq!(g.rows[3][0], blank_cell());
}

#[test]
fn scroll_never_touches_outside_the_rectangle() {
    let mut g = Grid::new(1, 2, 4);
    for r in 0..4 {
        let run = expand_cells(&vec![
            InputCell { ch: char::from_u32('0' as u32 + r as u32).unwrap(), hl: Some(0), repeat: 1 },
            InputCell { ch: 'x', hl: Some(0), repeat: 1 },
        ]);
        g.write_line(r, 0, &run);
    }
    // scroll only rows 1..3 of column 0, down by one (content moves down)
    g.scroll(1, 3, 0, 1, -1);
    // outside the rectangle: row 0 and 3, and column 1 everywhere, unchanged
    assert_eq!(g.rows[0][0].ch, '0');
    assert_eq!(g.rows[3][0].ch, '3');
    for r in 0..4 {
        assert_eq!(g.rows[r][1].ch, 'x');
    }
    // inside: row 2 took row 1's cell, row 1 was vacated
    assert_eq!(g.rows[2][0].ch, '1');
    assert_eq!(g.rows[1][0], blank_cell());
}
