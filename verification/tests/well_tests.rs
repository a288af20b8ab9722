use rustris::tetromino::{piece_type_to_shape, Piece, PieceType, Position};
use rustris::well::Well;

#[test]
fn no_collision_at_spawn_in_empty_well() {
    let w = Well::new();
    let sh = piece_type_to_shape(PieceType::I, 0);
    assert!(!w.check_for_collisions(&sh, &Position { x: 3, y: 0 }));
}

#[test]
fn collision_past_left_wall() {
    let w = Well::new();
    // the I piece in its spawn rotation occupies row 1, columns 0 through 3
    let sh = piece_type_to_shape(PieceType::I, 0);
    assert!(w.check_for_collisions(&sh, &Position { x: -1, y: 0 }));
    assert!(!w.check_for_collisions(&sh, &Position { x: 0, y: 0 }));
}

#[test]
fn collision_past_right_wall() {
    let w = Well::new();
    let sh = piece_type_to_shape(PieceType::I, 0);
    assert!(!w.check_for_collisions(&sh, &Position { x: 6, y: 0 }));
    assert!(w.check_for_collisions(&sh, &Position { x: 7, y: 0 }));
}

#[test]
fn collision_past_floor() {
    let w = Well::new();
    let sh = piece_type_to_shape(PieceType::I, 0);
    assert!(!w.check_for_collisions(&sh, &Position { x: 3, y: 20 }));
    assert!(w.check_for_collisions(&sh, &Position { x: 3, y: 21 }));
}

#[test]
fn collision_with_occupied_cell() {
    let mut w = Well::new();
    w.data[11][5] = 3;
    let sh = piece_type_to_shape(PieceType::I, 0);
    // at (2, 10) the piece covers row 11, columns 2 through 5
    assert!(w.check_for_collisions(&sh, &Position { x: 2, y: 10 }));
    assert!(!w.check_for_collisions(&sh, &Position { x: 2, y: 9 }));
}

#[test]
fn landing_at_floor_and_on_blocks() {
    let mut w = Well::new();
    let sh = piece_type_to_shape(PieceType::I, 0);
    // row 1 + y reaches the floor at y == 21
    assert!(!w.check_for_landing(&sh, &Position { x: 3, y: 20 }));
    assert!(w.check_for_landing(&sh, &Position { x: 3, y: 21 }));
    // a block underneath also lands the piece
    w.data[10][4] = 5;
    assert!(w.check_for_landing(&sh, &Position { x: 3, y: 9 }));
}

#[test]
fn landing_ignores_columns_outside_the_well() {
    let w = Well::new();
    let sh = piece_type_to_shape(PieceType::I, 0);
    // columns out of bounds do not block a landing probe
    assert!(!w.check_for_landing(&sh, &Position { x: -1, y: 5 }));
    assert!(!w.check_for_landing(&sh, &Position { x: 8, y: 5 }));
}

#[test]
fn landing_piece_fills_cells() {
    let mut w = Well::new();
    let mut p = Piece::new(PieceType::O);
    // the O piece occupies rows 0-1, columns 1-2 of its matrix
    p.top_left = Position { x: 0, y: 20 };
    w.land(&p);
    assert_eq!(w.data[20][1], 4);
    assert_eq!(w.data[20][2], 4);
    assert_eq!(w.data[21][1], 4);
    assert_eq!(w.data[21][2], 4);
    assert_eq!(w.data[21][0], 0);
    assert_eq!(w.data[19][1], 0);
}

#[test]
fn naive_line_clear_shifts_rows_down() {
    let mut w = Well::new();
    w.data[21] = [1, 1, 1, 1, 1, 1, 1, 1, 1, 1];
    w.data[20][0] = 2;
    w.data[19][9] = 7;
    w.naive_line_clear(21);
    // the cleared row's contents are gone and the rows above moved down
    assert_eq!(w.data[21][0], 2);
    assert_eq!(w.data[21][1], 0);
    assert_eq!(w.data[20][9], 7);
    assert_eq!(w.data[0], [0, 0, 0, 0, 0, 0, 0, 0, 0, 0]);
}

#[test]
fn naive_line_clear_of_top_row_zeroes_it() {
    let mut w = Well::new();
    w.data[0] = [1, 2, 3, 4, 5, 6, 7, 1, 2, 3];
    w.naive_line_clear(0);
    assert_eq!(w.data[0], [0, 0, 0, 0, 0, 0, 0, 0, 0, 0]);
}

#[test]
fn clear_lines_removes_one_full_row() {
    let mut w = Well::new();
    w.data[21] = [1, 1, 1, 1, 1, 1, 1, 1, 1, 1];
    w.data[20][0] = 2;
    let cleared = w.clear_lines();
    assert_eq!(cleared, 1);
    assert_eq!(w.data[21][0], 2);
    assert_eq!(w.data[21][1], 0);
    assert_eq!(w.data[20], [0, 0, 0, 0, 0, 0, 0, 0, 0, 0]);
}

#[test]
fn clear_lines_removes_stacked_full_rows() {
    let mut w = Well::new();
    w.data[21] = [1, 1, 1, 1, 1, 1, 1, 1, 1, 1];
    w.data[20] = [2, 2, 2, 2, 2, 2, 2, 2, 2, 2];
    w.data[19][3] = 6;
    let cleared = w.clear_lines();
    assert_eq!(cleared, 2);
    // the surviving row sank to the bottom
    assert_eq!(w.data[21][3], 6);
    assert_eq!(w.data[21][0], 0);
    assert_eq!(w.data[20], [0, 0, 0, 0, 0, 0, 0, 0, 0, 0]);
}

#[test]
fn clear_lines_leaves_partial_rows_alone() {
    let mut w = Well::new();
    w.data[21][0] = 1;
    w.data[21][1] = 1;
    let cleared = w.clear_lines();
    assert_eq!(cleared, 0);
    assert_eq!(w.data[21][0], 1);
    assert_eq!(w.data[21][1], 1);
}
