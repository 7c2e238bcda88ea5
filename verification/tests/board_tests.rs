use chess_server::board::{ChessBoard, EMPTY_CELL, HEIGHT, WIDTH};

#[test]
fn fresh_board_is_empty_and_open() {
    let b = ChessBoard::new();
    for x in 0..HEIGHT {
        for y in 0..WIDTH {
            assert_eq!(b.cell(x, y), EMPTY_CELL);
            assert!(b.valid(x, y));
        }
    }
}

#[test]
fn out_of_bounds_is_invalid() {
    let b = ChessBoard::new();
    assert!(!b.valid(HEIGHT, 0));
    assert!(!b.valid(0, WIDTH));
    assert!(!b.valid(usize::MAX, usize::MAX));
}

#[test]
fn marked_cell_is_owned_and_closed() {
    let mut b = ChessBoard::new();
    b.mark(3, 4, 1);
    assert_eq!(b.cell(3, 4), 1);
    assert!(!b.valid(3, 4));
    assert!(b.valid(3, 5));
    assert!(b.valid(4, 4));
}

#[test]
fn four_in_a_row_is_no_win() {
    let mut b = ChessBoard::new();
    for y in 0..4 {
        b.mark(0, y, 1);
    }
    assert!(!b.check_win(0, 3, 1));
}

#[test]
fn five_in_a_row_wins() {
    let mut b = ChessBoard::new();
    for y in 0..5 {
        b.mark(0, y, 1);
    }
    assert!(b.check_win(0, 4, 1));
    assert!(b.check_win(0, 0, 1));
    assert!(b.check_win(0, 2, 1));
}

#[test]
fn five_in_a_column_wins() {
    let mut b = ChessBoard::new();
    for x in 2..7 {
        b.mark(x, 9, 2);
    }
    assert!(b.check_win(4, 9, 2));
}

#[test]
fn five_on_diagonal_wins() {
    let mut b = ChessBoard::new();
    for i in 0..5 {
        b.mark(3 + i, 2 + i, 1);
    }
    assert!(b.check_win(5, 4, 1));
}

#[test]
fn five_on_antidiagonal_wins() {
    let mut b = ChessBoard::new();
    for i in 0..5 {
        b.mark(8 - i, 1 + i, 2);
    }
    assert!(b.check_win(6, 3, 2));
}

#[test]
fn opponent_cells_do_not_help_a_line() {
    let mut b = ChessBoard::new();
    b.mark(0, 0, 1);
    b.mark(0, 1, 1);
    b.mark(0, 2, 2);
    b.mark(0, 3, 1);
    b.mark(0, 4, 1);
    assert!(!b.check_win(0, 4, 1));
    assert!(!b.check_win(0, 2, 2));
}

#[test]
fn broken_line_is_no_win() {
    let mut b = ChessBoard::new();
    for y in [0usize, 1, 2, 3, 5, 6, 7, 8] {
        b.mark(4, y, 1);
    }
    assert!(!b.check_win(4, 3, 1));
    b.mark(4, 4, 1);
    assert!(b.check_win(4, 4, 1));
}
