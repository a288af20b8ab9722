use rustris::bag::PieceBag;
use rustris::tetromino::{
    block_to_colour, next_rotation_index, piece_type_to_shape, u8_to_piece_type, Piece, PieceType,
    Position, Rgba,
};

#[test]
fn i_piece_spawn_shape() {
    let sh = piece_type_to_shape(PieceType::I, 0);
    assert_eq!(
        sh,
        [[0, 0, 0, 0], [1, 1, 1, 1], [0, 0, 0, 0], [0, 0, 0, 0]],
    );
}

#[test]
fn o_piece_shape_is_the_same_in_every_rotation() {
    let first = piece_type_to_shape(PieceType::O, 0);
    for index in 1..4 {
        assert_eq!(piece_type_to_shape(PieceType::O, index), first);
    }
}

#[test]
fn every_shape_cell_is_empty_or_tagged() {
    let types = [
        (PieceType::I, 1),
        (PieceType::J, 2),
        (PieceType::L, 3),
        (PieceType::O, 4),
        (PieceType::S, 5),
        (PieceType::T, 6),
        (PieceType::Z, 7),
    ];
    for (t, tag) in types {
        for index in 0..4 {
            let sh = piece_type_to_shape(t, index);
            let mut blocks = 0;
            for row in sh {
                for cell in row {
                    assert!(cell == 0 || cell == tag);
                    if cell != 0 {
                        blocks += 1;
                    }
                }
            }
            assert_eq!(blocks, 4);
        }
    }
}

#[test]
fn rotation_index_steps_and_wraps() {
    assert_eq!(next_rotation_index(0, -1), 1);
    assert_eq!(next_rotation_index(1, -1), 2);
    assert_eq!(next_rotation_index(2, -1), 3);
    assert_eq!(next_rotation_index(3, -1), 0);
    assert_eq!(next_rotation_index(0, 1), 3);
    assert_eq!(next_rotation_index(1, 1), 0);
    assert_eq!(next_rotation_index(2, 1), 1);
    assert_eq!(next_rotation_index(3, 1), 2);
}

#[test]
fn numbers_map_to_piece_types() {
    assert_eq!(u8_to_piece_type(0), Some(PieceType::I));
    assert_eq!(u8_to_piece_type(1), Some(PieceType::J));
    assert_eq!(u8_to_piece_type(2), Some(PieceType::L));
    assert_eq!(u8_to_piece_type(3), Some(PieceType::O));
    assert_eq!(u8_to_piece_type(4), Some(PieceType::S));
    assert_eq!(u8_to_piece_type(5), Some(PieceType::T));
    assert_eq!(u8_to_piece_type(6), Some(PieceType::Z));
}

#[test]
fn block_colours_match_tags() {
    assert_eq!(block_to_colour(1, false), Rgba { r: 0, g: 255, b: 255, a: 255 });
    assert_eq!(block_to_colour(4, false), Rgba { r: 255, g: 255, b: 0, a: 255 });
    assert_eq!(block_to_colour(7, false), Rgba { r: 255, g: 0, b: 0, a: 255 });
    // the shadow variant only fades the alpha channel
    assert_eq!(block_to_colour(3, true), Rgba { r: 255, g: 165, b: 0, a: 75 });
}

#[test]
fn new_piece_spawns_at_the_top() {
    let p = Piece::new(PieceType::T);
    assert_eq!(p.get_type(), PieceType::T);
    assert_eq!(p.top_left, Position { x: 3, y: 0 });
    assert_eq!(p.potential_top_left, Position { x: 3, y: 0 });
    assert_eq!(p.get_shadow_position(), Position { x: 3, y: 0 });
    assert_eq!(p.get_shape(), piece_type_to_shape(PieceType::T, 0));
}

#[test]
fn change_shape_steps_through_the_rotation_table() {
    let mut p = Piece::new(PieceType::L);
    assert_eq!(p.get_next_shape(-1), piece_type_to_shape(PieceType::L, 1));
    p.change_shape(-1);
    assert_eq!(p.get_shape(), piece_type_to_shape(PieceType::L, 1));
    p.change_shape(-1);
    assert_eq!(p.get_shape(), piece_type_to_shape(PieceType::L, 2));
    p.change_shape(1);
    assert_eq!(p.get_shape(), piece_type_to_shape(PieceType::L, 1));
}

#[test]
fn seven_draws_yield_each_type_once() {
    // one full bag cycle holds every piece type exactly once
    let mut bag = PieceBag::new();
    let mut drawn: Vec<PieceType> = Vec::new();
    for _ in 0..7 {
        drawn.push(bag.take_piece().get_type());
    }
    let all = [
        PieceType::I,
        PieceType::J,
        PieceType::L,
        PieceType::O,
        PieceType::S,
        PieceType::T,
        PieceType::Z,
    ];
    for t in all {
        let count = drawn.iter().filter(|d| **d == t).count();
        assert_eq!(count, 1);
    }
}

#[test]
fn bag_refills_after_seven_draws() {
    let mut bag = PieceBag::new();
    assert_eq!(bag.queue.len(), 7);
    for k in 0..7 {
        bag.take_piece();
        if k < 6 {
            assert_eq!(bag.queue.len(), 6 - k);
        }
    }
    assert_eq!(bag.queue.len(), 7);
}

#[test]
fn peek_matches_the_next_draw() {
    let mut bag = PieceBag::new();
    let peeked = bag.peek_at_next_piece().get_type();
    let taken = bag.take_piece().get_type();
    assert_eq!(peeked, taken);
}
