use tetris_bane::block::{Color, Position};
use tetris_bane::board::{
    blank_row_vec, can_move_here, delete_full_lines, is_occupied, is_row_full, paint_positions,
    positions_empty_on_board, Board,
};

fn grey() -> Color {
    Color { r: 100, g: 100, b: 100 }
}

fn marker(n: u8) -> Color {
    Color { r: n, g: 0, b: 0 }
}

fn empty_board(rows: usize, cols: usize) -> Board {
    let mut b: Board = Vec::new();
    for _ in 0..rows {
        b.push(blank_row_vec(cols));
    }
    b
}

fn full_row(cols: usize, color: Color) -> Vec<Option<Color>> {
    vec![Some(color); cols]
}

#[test]
fn blank_rows_are_empty_and_sized() {
    let row = blank_row_vec(10);
    assert_eq!(row.len(), 10);
    assert!(row.iter().all(|c| c.is_none()));
}

#[test]
fn painting_sets_exactly_the_listed_cells() {
    let board = empty_board(4, 3);
    let cells = vec![Position { x: 0, y: 0 }, Position { x: 2, y: 3 }];
    let painted = paint_positions(&board, &cells, grey());
    assert_eq!(painted[0][0], Some(grey()));
    assert_eq!(painted[3][2], Some(grey()));
    assert_eq!(painted[0][1], None);
    assert_eq!(painted[1][0], None);
    // the board handed in is untouched
    assert_eq!(board[0][0], None);
}

#[test]
fn occupancy_follows_painting() {
    let board = empty_board(4, 3);
    let painted = paint_positions(&board, &vec![Position { x: 1, y: 2 }], grey());
    assert!(is_occupied(&painted, Position { x: 1, y: 2 }));
    assert!(!is_occupied(&painted, Position { x: 0, y: 2 }));
}

#[test]
fn cells_outside_the_board_cannot_take_a_piece() {
    let board = empty_board(4, 3);
    assert!(!can_move_here(&board, Position { x: -1, y: 0 }));
    assert!(!can_move_here(&board, Position { x: 0, y: -1 }));
    assert!(!can_move_here(&board, Position { x: 3, y: 0 }));
    assert!(!can_move_here(&board, Position { x: 0, y: 4 }));
    assert!(can_move_here(&board, Position { x: 2, y: 3 }));
}

#[test]
fn an_accepted_cell_list_has_each_cell_individually_placeable() {
    let board = paint_positions(&empty_board(4, 3), &vec![Position { x: 1, y: 1 }], grey());
    let free = vec![Position { x: 0, y: 0 }, Position { x: 2, y: 2 }];
    assert!(positions_empty_on_board(&free, &board));
    for p in &free {
        assert!(can_move_here(&board, *p));
    }
    let clashing = vec![Position { x: 0, y: 0 }, Position { x: 1, y: 1 }];
    assert!(!positions_empty_on_board(&clashing, &board));
}

#[test]
fn row_fullness_checks_every_cell() {
    assert!(is_row_full(&full_row(3, grey())));
    let mut row = full_row(3, grey());
    row[1] = None;
    assert!(!is_row_full(&row));
}

#[test]
fn clearing_a_board_with_no_full_rows_changes_nothing() {
    let board = paint_positions(
        &empty_board(5, 4),
        &vec![Position { x: 0, y: 4 }, Position { x: 2, y: 3 }],
        grey(),
    );
    let (after, count) = delete_full_lines(&board);
    assert_eq!(count, 0);
    assert_eq!(after, board);
}

#[test]
fn clearing_removes_exactly_the_full_rows_and_keeps_the_order() {
    // Twelve rows; rows 2 and 5 are full, the ten others carry one
    // marker each so their order can be followed.
    let cols = 3;
    let mut board: Board = Vec::new();
    let mut n: u8 = 0;
    for y in 0..12 {
        if y == 2 || y == 5 {
            board.push(full_row(cols, grey()));
        } else {
            let mut row = blank_row_vec(cols);
            row[0] = Some(marker(n));
            board.push(row);
            n += 1;
        }
    }
    let (after, count) = delete_full_lines(&board);
    assert_eq!(count, 2);
    assert_eq!(after.len(), 12);
    // two blank rows inserted at the top
    assert!(after[0].iter().all(|c| c.is_none()));
    assert!(after[1].iter().all(|c| c.is_none()));
    // the ten surviving rows keep their relative order
    for k in 0..10u8 {
        assert_eq!(after[2 + k as usize][0], Some(marker(k)));
    }
}

#[test]
fn clearing_a_fully_stacked_board_empties_it() {
    let cols = 4;
    let mut board: Board = Vec::new();
    for _ in 0..3 {
        board.push(full_row(cols, grey()));
    }
    let (after, count) = delete_full_lines(&board);
    assert_eq!(count, 3);
    assert_eq!(after.len(), 3);
    for row in &after {
        assert!(row.iter().all(|c| c.is_none()));
    }
}
