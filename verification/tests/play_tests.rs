use rustris::input::{Command, InputStateField, INITIAL_DELAY_TIME};
use rustris::menu::{next_selection, OptionInputCommand};
use rustris::play::{line_clear_score, GameEndMode, PlayState, BASE_FALL_SPEED};
use rustris::tetromino::{piece_type_to_shape, Piece, PieceType, Position};

fn session_with_piece(t: PieceType) -> PlayState {
    let mut s = PlayState::new();
    s.current_piece = Piece::new(t);
    s
}

#[test]
fn moving_left_commits_on_open_ground() {
    let mut s = session_with_piece(PieceType::I);
    s.move_piece(Position { x: -1, y: 0 });
    assert_eq!(s.current_piece.top_left, Position { x: 2, y: 0 });
    assert_eq!(s.current_piece.potential_top_left, Position { x: 2, y: 0 });
}

#[test]
fn moving_left_stops_at_the_wall() {
    let mut s = session_with_piece(PieceType::I);
    for _ in 0..6 {
        s.move_piece(Position { x: -1, y: 0 });
    }
    // the I piece's blocks start in its leftmost matrix column
    assert_eq!(s.current_piece.top_left, Position { x: 0, y: 0 });
}

#[test]
fn straight_rotation_commits_in_the_open() {
    let mut s = session_with_piece(PieceType::I);
    s.move_piece(Position { x: 0, y: 1 });
    s.rotate_piece(-1);
    assert_eq!(s.current_piece.get_shape(), piece_type_to_shape(PieceType::I, 1));
    assert_eq!(s.current_piece.top_left, Position { x: 3, y: 1 });
}

#[test]
fn wall_kick_shifts_the_piece_off_the_wall() {
    // a vertical I piece flush against the left wall: rotating it flat
    // collides there, and must succeed via the +1 column kick
    let mut s = session_with_piece(PieceType::I);
    s.current_piece.change_shape(-1); // vertical, blocks in matrix column 1
    s.current_piece.top_left = Position { x: -1, y: 5 };
    s.current_piece.potential_top_left = Position { x: -1, y: 5 };
    s.rotate_piece(1);
    assert_eq!(s.current_piece.get_shape(), piece_type_to_shape(PieceType::I, 0));
    assert_eq!(s.current_piece.top_left, Position { x: 0, y: 5 });
    assert_eq!(s.current_piece.potential_top_left, Position { x: 0, y: 5 });
}

#[test]
fn rotation_fails_when_all_three_candidates_collide() {
    let mut s = session_with_piece(PieceType::I);
    s.current_piece.change_shape(-1); // vertical, blocks in matrix column 1
    s.current_piece.top_left = Position { x: -1, y: 5 };
    s.current_piece.potential_top_left = Position { x: -1, y: 5 };
    // block the kicked position: flat at x == 0 covers row 6, columns 0-3
    s.well.data[6][3] = 5;
    s.rotate_piece(1);
    assert_eq!(s.current_piece.get_shape(), piece_type_to_shape(PieceType::I, 1));
    assert_eq!(s.current_piece.top_left, Position { x: -1, y: 5 });
}

#[test]
fn gravity_advances_the_piece_one_row() {
    let mut s = session_with_piece(PieceType::I);
    let advanced = s.handle_gravity(BASE_FALL_SPEED);
    assert!(advanced);
    assert_eq!(s.current_piece.top_left, Position { x: 3, y: 1 });
    assert_eq!(s.fall_timer, 0);
}

#[test]
fn gravity_waits_for_the_interval() {
    let mut s = session_with_piece(PieceType::I);
    let advanced = s.handle_gravity(BASE_FALL_SPEED / 2);
    assert!(advanced);
    assert_eq!(s.current_piece.top_left, Position { x: 3, y: 0 });
    assert_eq!(s.fall_timer, BASE_FALL_SPEED / 2);
}

#[test]
fn gravity_locks_a_landed_piece_and_draws_the_next() {
    let mut s = session_with_piece(PieceType::O);
    s.current_piece.top_left = Position { x: 0, y: 20 };
    s.current_piece.potential_top_left = Position { x: 0, y: 20 };
    s.can_hold = false;
    let advanced = s.handle_gravity(BASE_FALL_SPEED);
    assert!(!advanced);
    assert!(!s.game_over);
    assert_eq!(s.well.data[21][1], 4);
    assert_eq!(s.well.data[20][2], 4);
    assert!(s.can_hold);
    assert_eq!(s.current_piece.top_left, Position { x: 3, y: 0 });
}

#[test]
fn locking_inside_the_vanish_zone_ends_the_game() {
    let mut s = session_with_piece(PieceType::I);
    // a full wall of blocks right under the spawn rows
    s.well.data[2] = [1, 1, 1, 1, 1, 1, 1, 1, 1, 1];
    let advanced = s.handle_gravity(BASE_FALL_SPEED);
    assert!(!advanced);
    assert!(s.game_over);
    // the piece was not locked into the well
    assert_eq!(s.well.data[1], [0, 0, 0, 0, 0, 0, 0, 0, 0, 0]);
}

#[test]
fn shadow_projects_to_the_floor() {
    let mut s = session_with_piece(PieceType::I);
    s.handle_shadow_piece();
    // the I piece's blocks sit in matrix row 1: resting on the floor
    // means top row 20
    assert_eq!(s.current_piece.get_shadow_position(), Position { x: 3, y: 20 });
}

#[test]
fn shadow_rests_on_existing_blocks() {
    let mut s = session_with_piece(PieceType::I);
    s.well.data[10][4] = 2;
    s.handle_shadow_piece();
    assert_eq!(s.current_piece.get_shadow_position(), Position { x: 3, y: 8 });
}

#[test]
fn hard_drop_locks_at_the_shadow() {
    let mut s = session_with_piece(PieceType::O);
    s.handle_shadow_piece();
    s.input.press(Command::HardDrop);
    s.handle_user_input(16_000);
    // the O piece dropped from (3, 0): columns 4-5, rows 20-21
    assert_eq!(s.well.data[20][4], 4);
    assert_eq!(s.well.data[21][5], 4);
    assert!(s.can_hold);
    assert_eq!(s.current_piece.top_left, Position { x: 3, y: 0 });
}

#[test]
fn held_movement_fires_then_waits_out_the_initial_delay() {
    let mut s = session_with_piece(PieceType::I);
    s.input.press(Command::MoveLeft);
    s.handle_user_input(10_000);
    assert_eq!(s.current_piece.top_left, Position { x: 2, y: 0 });
    // within the initial delay the action does not fire again
    s.prev_input = s.input;
    s.handle_user_input(10_000);
    assert_eq!(s.current_piece.top_left, Position { x: 2, y: 0 });
    assert_eq!(s.input.left.initial_delay_timer, 20_000);
}

#[test]
fn rotation_input_is_edge_triggered() {
    let mut s = session_with_piece(PieceType::T);
    s.move_piece(Position { x: 0, y: 1 });
    s.input.press(Command::RotateClockwise);
    s.handle_user_input(16_000);
    assert_eq!(s.current_piece.get_shape(), piece_type_to_shape(PieceType::T, 3));
    // while the key stays held, no further rotation happens
    s.prev_input = s.input;
    s.handle_user_input(16_000);
    assert_eq!(s.current_piece.get_shape(), piece_type_to_shape(PieceType::T, 3));
}

#[test]
fn repeat_timer_follows_the_documented_cadence() {
    let mut f = InputStateField { is_active: true, initial_delay_timer: 0, secondary_delay_timer: 0 };
    assert!(f.advance_repeat(50_000)); // fires on the first frame
    assert!(!f.advance_repeat(60_000)); // waiting out the initial delay
    assert!(!f.advance_repeat(60_000)); // timer passes the threshold here
    assert!(f.advance_repeat(20_000)); // past the delay: fires again
    assert_eq!(f.initial_delay_timer, 170_000);
    assert!(INITIAL_DELAY_TIME < 170_000);
    assert!(!f.advance_repeat(30_000)); // secondary delay not yet over
    assert!(f.advance_repeat(25_000)); // secondary timer wrapped to zero
}

#[test]
fn first_hold_stores_the_piece_and_draws_a_new_one() {
    let mut s = session_with_piece(PieceType::Z);
    let next_type = s.bag.queue[0];
    s.handle_hold();
    assert_eq!(s.hold_piece_type, Some(PieceType::Z));
    assert!(!s.can_hold);
    assert_eq!(s.current_piece.get_type(), next_type);
    // only one hold per piece lifetime
    let held = s.current_piece.get_type();
    s.handle_hold();
    assert_eq!(s.hold_piece_type, Some(PieceType::Z));
    assert_eq!(s.current_piece.get_type(), held);
}

#[test]
fn holding_the_same_type_is_refused() {
    let mut s = session_with_piece(PieceType::S);
    s.hold_piece_type = Some(PieceType::S);
    s.handle_hold();
    assert!(s.can_hold);
    assert_eq!(s.current_piece.get_type(), PieceType::S);
    assert_eq!(s.hold_piece_type, Some(PieceType::S));
}

#[test]
fn four_lines_at_level_two_score_3600() {
    assert_eq!(line_clear_score(4, 2), 3600);
}

#[test]
fn single_line_scores_forty_per_level_step() {
    assert_eq!(line_clear_score(1, 0), 40);
    assert_eq!(line_clear_score(2, 0), 100);
    assert_eq!(line_clear_score(3, 1), 600);
    assert_eq!(line_clear_score(0, 5), 0);
}

#[test]
fn clearing_four_lines_awards_the_tetris_score() {
    let mut s = session_with_piece(PieceType::I);
    s.level = 2;
    for r in 18..22 {
        s.well.data[r] = [1, 1, 1, 1, 1, 1, 1, 1, 1, 1];
    }
    s.handle_line_clears();
    assert_eq!(s.score, 3600);
    assert_eq!(s.cleared_lines, 4);
    assert_eq!(s.level, 2);
    assert_eq!(s.lines_until_next_level, 6);
}

#[test]
fn reaching_the_line_quota_raises_the_level() {
    let mut s = session_with_piece(PieceType::I);
    s.lines_until_next_level = 1;
    s.well.data[21] = [1, 1, 1, 1, 1, 1, 1, 1, 1, 1];
    s.handle_line_clears();
    assert_eq!(s.level, 1);
    assert_eq!(s.lines_until_next_level, 10);
    // the gravity interval lost a quarter
    assert_eq!(s.time_until_gravity, BASE_FALL_SPEED - BASE_FALL_SPEED / 4);
}

#[test]
fn step_reports_a_lost_session() {
    let mut s = PlayState::new();
    s.game_over = true;
    assert_eq!(s.step(16_000), Some(GameEndMode::Lose));
}

#[test]
fn step_reports_a_win_at_the_level_cap() {
    let mut s = PlayState::new();
    s.level = 15;
    assert_eq!(s.step(16_000), Some(GameEndMode::Win));
}

#[test]
fn step_continues_an_ordinary_frame() {
    let mut s = PlayState::new();
    assert_eq!(s.step(16_000), None);
    assert_eq!(s.prev_input, s.input);
}

#[test]
fn menu_selection_wraps_both_ways() {
    assert_eq!(next_selection(0, 3, &OptionInputCommand::Up), 2);
    assert_eq!(next_selection(2, 3, &OptionInputCommand::Up), 1);
    assert_eq!(next_selection(2, 3, &OptionInputCommand::Down), 0);
    assert_eq!(next_selection(0, 3, &OptionInputCommand::Down), 1);
    assert_eq!(next_selection(1, 3, &OptionInputCommand::Select), 1);
}

#[test]
fn a_piece_locks_within_a_full_drop() {
    let mut s = PlayState::new();
    // with a whole gravity interval per frame, the piece falls one row
    // per step and must lock within 22 frames
    for _ in 0..22 {
        assert_eq!(s.step(BASE_FALL_SPEED), None);
    }
    let mut blocks = 0;
    for r in 0..22 {
        for c in 0..10 {
            if s.well.data[r][c] != 0 {
                blocks += 1;
            }
        }
    }
    // at least the first piece locked; every piece leaves four blocks
    assert!(blocks >= 4);
    assert_eq!(blocks % 4, 0);
}
