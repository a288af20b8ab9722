//! Piece types, their rotation shape tables, and the player-controlled piece.

use vstd::prelude::*;

verus! {

/// A `PieceShape` is a 4x4 grid that gives the blocks of a piece in one
/// rotation state. A 0 is an empty cell; a non-zero cell carries the piece's
/// colour tag (1 through 7).
pub type PieceShape = [[u32; 4]; 4];

/// All the possible piece types that can be taken out of a `PieceBag`.
#[derive(Debug, Copy, Clone, PartialEq, Eq, Structural)]
pub enum PieceType {
    L,
    T,
    I,
    Z,
    J,
    S,
    O,
}

/// A cell coordinate or offset on the well grid. `x` counts columns and `y`
/// counts rows, both from the top-left corner; the origin is the well's
/// top-left cell, so a piece above the visible field has a negative `y`.
#[derive(Debug, Copy, Clone, PartialEq, Eq, Structural)]
pub struct Position {
    pub x: i32,
    pub y: i32,
}

/// An opaque colour, one byte per channel.
#[derive(Debug, Copy, Clone, PartialEq, Eq, Structural)]
pub struct Rgba {
    pub r: u8,
    pub g: u8,
    pub b: u8,
    pub a: u8,
}

/// The colour tag that marks a piece type's blocks, both in its shape
/// matrices and in the cells it leaves behind in the well.
pub open spec fn piece_tag(t: PieceType) -> u32 {
    match t {
        PieceType::I => 1,
        PieceType::J => 2,
        PieceType::L => 3,
        PieceType::O => 4,
        PieceType::S => 5,
        PieceType::T => 6,
        PieceType::Z => 7,
    }
}

/// The four rotation states of the I piece.
pub open spec fn spec_i_shape(rot: int) -> Seq<Seq<u32>> {
    if rot == 0 {
        seq![seq![0u32, 0u32, 0u32, 0u32], seq![1u32, 1u32, 1u32, 1u32], seq![0u32, 0u32, 0u32, 0u32], seq![0u32, 0u32, 0u32, 0u32]]
    } else if rot == 1 {
        seq![seq![0u32, 1u32, 0u32, 0u32], seq![0u32, 1u32, 0u32, 0u32], seq![0u32, 1u32, 0u32, 0u32], seq![0u32, 1u32, 0u32, 0u32]]
    } else if rot == 2 {
        seq![seq![0u32, 0u32, 0u32, 0u32], seq![0u32, 0u32, 0u32, 0u32], seq![1u32, 1u32, 1u32, 1u32], seq![0u32, 0u32, 0u32, 0u32]]
    } else {
        seq![seq![0u32, 0u32, 1u32, 0u32], seq![0u32, 0u32, 1u32, 0u32], seq![0u32, 0u32, 1u32, 0u32], seq![0u32, 0u32, 1u32, 0u32]]
    }
}

/// The four rotation states of the J piece.
pub open spec fn spec_j_shape(rot: int) -> Seq<Seq<u32>> {
    if rot == 0 {
        seq![seq![2u32, 0u32, 0u32, 0u32], seq![2u32, 2u32, 2u32, 0u32], seq![0u32, 0u32, 0u32, 0u32], seq![0u32, 0u32, 0u32, 0u32]]
    } else if rot == 1 {
        seq![seq![0u32, 2u32, 0u32, 0u32], seq![0u32, 2u32, 0u32, 0u32], seq![2u32, 2u32, 0u32, 0u32], seq![0u32, 0u32, 0u32, 0u32]]
    } else if rot == 2 {
        seq![seq![0u32, 0u32, 0u32, 0u32], seq![2u32, 2u32, 2u32, 0u32], seq![0u32, 0u32, 2u32, 0u32], seq![0u32, 0u32, 0u32, 0u32]]
    } else {
        seq![seq![0u32, 2u32, 2u32, 0u32], seq![0u32, 2u32, 0u32, 0u32], seq![0u32, 2u32, 0u32, 0u32], seq![0u32, 0u32, 0u32, 0u32]]
    }
}

/// The four rotation states of the L piece.
pub open spec fn spec_l_shape(rot: int) -> Seq<Seq<u32>> {
    if rot == 0 {
        seq![seq![0u32, 0u32, 3u32, 0u32], seq![3u32, 3u32, 3u32, 0u32], seq![0u32, 0u32, 0u32, 0u32], seq![0u32, 0u32, 0u32, 0u32]]
    } else if rot == 1 {
        seq![seq![3u32, 3u32, 0u32, 0u32], seq![0u32, 3u32, 0u32, 0u32], seq![0u32, 3u32, 0u32, 0u32], seq![0u32, 0u32, 0u32, 0u32]]
    } else if rot == 2 {
        seq![seq![0u32, 0u32, 0u32, 0u32], seq![3u32, 3u32, 3u32, 0u32], seq![3u32, 0u32, 0u32, 0u32], seq![0u32, 0u32, 0u32, 0u32]]
    } else {
        seq![seq![0u32, 3u32, 0u32, 0u32], seq![0u32, 3u32, 0u32, 0u32], seq![0u32, 3u32, 3u32, 0u32], seq![0u32, 0u32, 0u32, 0u32]]
    }
}

/// The four rotation states of the O piece.
pub open spec fn spec_o_shape(rot: int) -> Seq<Seq<u32>> {
    if rot == 0 {
        seq![seq![0u32, 4u32, 4u32, 0u32], seq![0u32, 4u32, 4u32, 0u32], seq![0u32, 0u32, 0u32, 0u32], seq![0u32, 0u32, 0u32, 0u32]]
    } else if rot == 1 {
        seq![seq![0u32, 4u32, 4u32, 0u32], seq![0u32, 4u32, 4u32, 0u32], seq![0u32, 0u32, 0u32, 0u32], seq![0u32, 0u32, 0u32, 0u32]]
    } else if rot == 2 {
        seq![seq![0u32, 4u32, 4u32, 0u32], seq![0u32, 4u32, 4u32, 0u32], seq![0u32, 0u32, 0u32, 0u32], seq![0u32, 0u32, 0u32, 0u32]]
    } else {
        seq![seq![0u32, 4u32, 4u32, 0u32], seq![0u32, 4u32, 4u32, 0u32], seq![0u32, 0u32, 0u32, 0u32], seq![0u32, 0u32, 0u32, 0u32]]
    }
}

/// The four rotation states of the S piece.
pub open spec fn spec_s_shape(rot: int) -> Seq<Seq<u32>> {
    if rot == 0 {
        seq![seq![0u32, 5u32, 5u32, 0u32], seq![5u32, 5u32, 0u32, 0u32], seq![0u32, 0u32, 0u32, 0u32], seq![0u32, 0u32, 0u32, 0u32]]
    } else if rot == 1 {
        seq![seq![5u32, 0u32, 0u32, 0u32], seq![5u32, 5u32, 0u32, 0u32], seq![0u32, 5u32, 0u32, 0u32], seq![0u32, 0u32, 0u32, 0u32]]
    } else if rot == 2 {
        seq![seq![0u32, 0u32, 0u32, 0u32], seq![0u32, 5u32, 5u32, 0u32], seq![5u32, 5u32, 0u32, 0u32], seq![0u32, 0u32, 0u32, 0u32]]
    } else {
        seq![seq![0u32, 5u32, 0u32, 0u32], seq![0u32, 5u32, 5u32, 0u32], seq![0u32, 0u32, 5u32, 0u32], seq![0u32, 0u32, 0u32, 0u32]]
    }
}

/// The four rotation states of the T piece.
pub open spec fn spec_t_shape(rot: int) -> Seq<Seq<u32>> {
    if rot == 0 {
        seq![seq![0u32, 6u32, 0u32, 0u32], seq![6u32, 6u32, 6u32, 0u32], seq![0u32, 0u32, 0u32, 0u32], seq![0u32, 0u32, 0u32, 0u32]]
    } else if rot == 1 {
        seq![seq![0u32, 6u32, 0u32, 0u32], seq![6u32, 6u32, 0u32, 0u32], seq![0u32, 6u32, 0u32, 0u32], seq![0u32, 0u32, 0u32, 0u32]]
    } else if rot == 2 {
        seq![seq![0u32, 0u32, 0u32, 0u32], seq![6u32, 6u32, 6u32, 0u32], seq![0u32, 6u32, 0u32, 0u32], seq![0u32, 0u32, 0u32, 0u32]]
    } else {
        seq![seq![0u32, 6u32, 0u32, 0u32], seq![0u32, 6u32, 6u32, 0u32], seq![0u32, 6u32, 0u32, 0u32], seq![0u32, 0u32, 0u32, 0u32]]
    }
}

/// The four rotation states of the Z piece.
pub open spec fn spec_z_shape(rot: int) -> Seq<Seq<u32>> {
    if rot == 0 {
        seq![seq![7u32, 7u32, 0u32, 0u32], seq![0u32, 7u32, 7u32, 0u32], seq![0u32, 0u32, 0u32, 0u32], seq![0u32, 0u32, 0u32, 0u32]]
    } else if rot == 1 {
        seq![seq![0u32, 7u32, 0u32, 0u32], seq![7u32, 7u32, 0u32, 0u32], seq![7u32, 0u32, 0u32, 0u32], seq![0u32, 0u32, 0u32, 0u32]]
    } else if rot == 2 {
        seq![seq![0u32, 0u32, 0u32, 0u32], seq![7u32, 7u32, 0u32, 0u32], seq![0u32, 7u32, 7u32, 0u32], seq![0u32, 0u32, 0u32, 0u32]]
    } else {
        seq![seq![0u32, 0u32, 7u32, 0u32], seq![0u32, 7u32, 7u32, 0u32], seq![0u32, 7u32, 0u32, 0u32], seq![0u32, 0u32, 0u32, 0u32]]
    }
}

/// The shape of a piece of type `t` in rotation state `rot`.
pub open spec fn spec_shape(t: PieceType, rot: int) -> Seq<Seq<u32>> {
    match t {
        PieceType::I => spec_i_shape(rot),
        PieceType::J => spec_j_shape(rot),
        PieceType::L => spec_l_shape(rot),
        PieceType::O => spec_o_shape(rot),
        PieceType::S => spec_s_shape(rot),
        PieceType::T => spec_t_shape(rot),
        PieceType::Z => spec_z_shape(rot),
    }
}

/// A well-formed shape matrix for a piece of type `t`: 4 rows of 4 cells,
/// every cell either empty or carrying the piece's tag, and at least one
/// cell occupied.
pub open spec fn shape_ok(t: PieceType, s: Seq<Seq<u32>>) -> bool {
    &&& s.len() == 4
    &&& forall|r: int| 0 <= r < 4 ==> (#[trigger] s[r]).len() == 4
    &&& forall|r: int, c: int|
        0 <= r < 4 && 0 <= c < 4 ==> (#[trigger] s[r][c] == 0 || s[r][c] == piece_tag(t))
    &&& exists|r: int, c: int| 0 <= r < 4 && 0 <= c < 4 && #[trigger] s[r][c] != 0
}

/// Every entry of the rotation tables is a well-formed shape for its piece
/// type.
pub proof fn lemma_spec_shape_ok(t: PieceType, rot: int)
    requires
        0 <= rot < 4,
    ensures
        shape_ok(t, spec_shape(t, rot)),
{
    if t == PieceType::I {
        if rot == 0 {
            assert(spec_shape(t, rot)[1][0] != 0);
        } else if rot == 1 {
            assert(spec_shape(t, rot)[0][1] != 0);
        } else if rot == 2 {
            assert(spec_shape(t, rot)[2][0] != 0);
        } else {
            assert(spec_shape(t, rot)[0][2] != 0);
        }
    }
    if t == PieceType::J {
        if rot == 0 {
            assert(spec_shape(t, rot)[0][0] != 0);
        } else if rot == 1 {
            assert(spec_shape(t, rot)[0][1] != 0);
        } else if rot == 2 {
            assert(spec_shape(t, rot)[1][0] != 0);
        } else {
            assert(spec_shape(t, rot)[0][1] != 0);
        }
    }
    if t == PieceType::L {
        if rot == 0 {
            assert(spec_shape(t, rot)[0][2] != 0);
        } else if rot == 1 {
            assert(spec_shape(t, rot)[0][0] != 0);
        } else if rot == 2 {
            assert(spec_shape(t, rot)[1][0] != 0);
        } else {
            assert(spec_shape(t, rot)[0][1] != 0);
        }
    }
    if t == PieceType::O {
        if rot == 0 {
            assert(spec_shape(t, rot)[0][1] != 0);
        } else if rot == 1 {
            assert(spec_shape(t, rot)[0][1] != 0);
        } else if rot == 2 {
            assert(spec_shape(t, rot)[0][1] != 0);
        } else {
            assert(spec_shape(t, rot)[0][1] != 0);
        }
    }
    if t == PieceType::S {
        if rot == 0 {
            assert(spec_shape(t, rot)[0][1] != 0);
        } else if rot == 1 {
            assert(spec_shape(t, rot)[0][0] != 0);
        } else if rot == 2 {
            assert(spec_shape(t, rot)[1][1] != 0);
        } else {
            assert(spec_shape(t, rot)[0][1] != 0);
        }
    }
    if t == PieceType::T {
        if rot == 0 {
            assert(spec_shape(t, rot)[0][1] != 0);
        } else if rot == 1 {
            assert(spec_shape(t, rot)[0][1] != 0);
        } else if rot == 2 {
            assert(spec_shape(t, rot)[1][0] != 0);
        } else {
            assert(spec_shape(t, rot)[0][1] != 0);
        }
    }
    if t == PieceType::Z {
        if rot == 0 {
            assert(spec_shape(t, rot)[0][0] != 0);
        } else if rot == 1 {
            assert(spec_shape(t, rot)[0][1] != 0);
        } else if rot == 2 {
            assert(spec_shape(t, rot)[1][0] != 0);
        } else {
            assert(spec_shape(t, rot)[0][2] != 0);
        }
    }
}

fn i_shape(index: usize) -> (s: PieceShape)
    requires
        index < 4,
    ensures
        s.deep_view() =~~= spec_i_shape(index as int),
{
    if index == 0 {
        let s: PieceShape = [[0, 0, 0, 0], [1, 1, 1, 1], [0, 0, 0, 0], [0, 0, 0, 0]];
        assert(s.deep_view() =~~= spec_i_shape(0));
        s
    } else if index == 1 {
        let s: PieceShape = [[0, 1, 0, 0], [0, 1, 0, 0], [0, 1, 0, 0], [0, 1, 0, 0]];
        assert(s.deep_view() =~~= spec_i_shape(1));
        s
    } else if index == 2 {
        let s: PieceShape = [[0, 0, 0, 0], [0, 0, 0, 0], [1, 1, 1, 1], [0, 0, 0, 0]];
        assert(s.deep_view() =~~= spec_i_shape(2));
        s
    } else {
        let s: PieceShape = [[0, 0, 1, 0], [0, 0, 1, 0], [0, 0, 1, 0], [0, 0, 1, 0]];
        assert(s.deep_view() =~~= spec_i_shape(3));
        s
    }
}

fn j_shape(index: usize) -> (s: PieceShape)
    requires
        index < 4,
    ensures
        s.deep_view() =~~= spec_j_shape(index as int),
{
    if index == 0 {
        let s: PieceShape = [[2, 0, 0, 0], [2, 2, 2, 0], [0, 0, 0, 0], [0, 0, 0, 0]];
        assert(s.deep_view() =~~= spec_j_shape(0));
        s
    } else if index == 1 {
        let s: PieceShape = [[0, 2, 0, 0], [0, 2, 0, 0], [2, 2, 0, 0], [0, 0, 0, 0]];
        assert(s.deep_view() =~~= spec_j_shape(1));
        s
    } else if index == 2 {
        let s: PieceShape = [[0, 0, 0, 0], [2, 2, 2, 0], [0, 0, 2, 0], [0, 0, 0, 0]];
        assert(s.deep_view() =~~= spec_j_shape(2));
        s
    } else {
        let s: PieceShape = [[0, 2, 2, 0], [0, 2, 0, 0], [0, 2, 0, 0], [0, 0, 0, 0]];
        assert(s.deep_view() =~~= spec_j_shape(3));
        s
    }
}

fn l_shape(index: usize) -> (s: PieceShape)
    requires
        index < 4,
    ensures
        s.deep_view() =~~= spec_l_shape(index as int),
{
    if index == 0 {
        let s: PieceShape = [[0, 0, 3, 0], [3, 3, 3, 0], [0, 0, 0, 0], [0, 0, 0, 0]];
        assert(s.deep_view() =~~= spec_l_shape(0));
        s
    } else if index == 1 {
        let s: PieceShape = [[3, 3, 0, 0], [0, 3, 0, 0], [0, 3, 0, 0], [0, 0, 0, 0]];
        assert(s.deep_view() =~~= spec_l_shape(1));
        s
    } else if index == 2 {
        let s: PieceShape = [[0, 0, 0, 0], [3, 3, 3, 0], [3, 0, 0, 0], [0, 0, 0, 0]];
        assert(s.deep_view() =~~= spec_l_shape(2));
        s
    } else {
        let s: PieceShape = [[0, 3, 0, 0], [0, 3, 0, 0], [0, 3, 3, 0], [0, 0, 0, 0]];
        assert(s.deep_view() =~~= spec_l_shape(3));
        s
    }
}

fn o_shape(index: usize) -> (s: PieceShape)
    requires
        index < 4,
    ensures
        s.deep_view() =~~= spec_o_shape(index as int),
{
    if index == 0 {
        let s: PieceShape = [[0, 4, 4, 0], [0, 4, 4, 0], [0, 0, 0, 0], [0, 0, 0, 0]];
        assert(s.deep_view() =~~= spec_o_shape(0));
        s
    } else if index == 1 {
        let s: PieceShape = [[0, 4, 4, 0], [0, 4, 4, 0], [0, 0, 0, 0], [0, 0, 0, 0]];
        assert(s.deep_view() =~~= spec_o_shape(1));
        s
    } else if index == 2 {
        let s: PieceShape = [[0, 4, 4, 0], [0, 4, 4, 0], [0, 0, 0, 0], [0, 0, 0, 0]];
        assert(s.deep_view() =~~= spec_o_shape(2));
        s
    } else {
        let s: PieceShape = [[0, 4, 4, 0], [0, 4, 4, 0], [0, 0, 0, 0], [0, 0, 0, 0]];
        assert(s.deep_view() =~~= spec_o_shape(3));
        s
    }
}

fn s_shape(index: usize) -> (s: PieceShape)
    requires
        index < 4,
    ensures
        s.deep_view() =~~= spec_s_shape(index as int),
{
    if index == 0 {
        let s: PieceShape = [[0, 5, 5, 0], [5, 5, 0, 0], [0, 0, 0, 0], [0, 0, 0, 0]];
        assert(s.deep_view() =~~= spec_s_shape(0));
        s
    } else if index == 1 {
        let s: PieceShape = [[5, 0, 0, 0], [5, 5, 0, 0], [0, 5, 0, 0], [0, 0, 0, 0]];
        assert(s.deep_view() =~~= spec_s_shape(1));
        s
    } else if index == 2 {
        let s: PieceShape = [[0, 0, 0, 0], [0, 5, 5, 0], [5, 5, 0, 0], [0, 0, 0, 0]];
        assert(s.deep_view() =~~= spec_s_shape(2));
        s
    } else {
        let s: PieceShape = [[0, 5, 0, 0], [0, 5, 5, 0], [0, 0, 5, 0], [0, 0, 0, 0]];
        assert(s.deep_view() =~~= spec_s_shape(3));
        s
    }
}

fn t_shape(index: usize) -> (s: PieceShape)
    requires
        index < 4,
    ensures
        s.deep_view() =~~= spec_t_shape(index as int),
{
    if index == 0 {
        let s: PieceShape = [[0, 6, 0, 0], [6, 6, 6, 0], [0, 0, 0, 0], [0, 0, 0, 0]];
        assert(s.deep_view() =~~= spec_t_shape(0));
        s
    } else if index == 1 {
        let s: PieceShape = [[0, 6, 0, 0], [6, 6, 0, 0], [0, 6, 0, 0], [0, 0, 0, 0]];
        assert(s.deep_view() =~~= spec_t_shape(1));
        s
    } else if index == 2 {
        let s: PieceShape = [[0, 0, 0, 0], [6, 6, 6, 0], [0, 6, 0, 0], [0, 0, 0, 0]];
        assert(s.deep_view() =~~= spec_t_shape(2));
        s
    } else {
        let s: PieceShape = [[0, 6, 0, 0], [0, 6, 6, 0], [0, 6, 0, 0], [0, 0, 0, 0]];
        assert(s.deep_view() =~~= spec_t_shape(3));
        s
    }
}

fn z_shape(index: usize) -> (s: PieceShape)
    requires
        index < 4,
    ensures
        s.deep_view() =~~= spec_z_shape(index as int),
{
    if index == 0 {
        let s: PieceShape = [[7, 7, 0, 0], [0, 7, 7, 0], [0, 0, 0, 0], [0, 0, 0, 0]];
        assert(s.deep_view() =~~= spec_z_shape(0));
        s
    } else if index == 1 {
        let s: PieceShape = [[0, 7, 0, 0], [7, 7, 0, 0], [7, 0, 0, 0], [0, 0, 0, 0]];
        assert(s.deep_view() =~~= spec_z_shape(1));
        s
    } else if index == 2 {
        let s: PieceShape = [[0, 0, 0, 0], [7, 7, 0, 0], [0, 7, 7, 0], [0, 0, 0, 0]];
        assert(s.deep_view() =~~= spec_z_shape(2));
        s
    } else {
        let s: PieceShape = [[0, 0, 7, 0], [0, 7, 7, 0], [0, 7, 0, 0], [0, 0, 0, 0]];
        assert(s.deep_view() =~~= spec_z_shape(3));
        s
    }
}

/// The shape matrix of piece type `shape` in rotation state `index`.
pub fn piece_type_to_shape(shape: PieceType, index: usize) -> (s: PieceShape)
    requires
        index < 4,
    ensures
        s.deep_view() == spec_shape(shape, index as int),
{
    match shape {
        PieceType::O => o_shape(index),
        PieceType::J => j_shape(index),
        PieceType::I => i_shape(index),
        PieceType::S => s_shape(index),
        PieceType::Z => z_shape(index),
        PieceType::L => l_shape(index),
        PieceType::T => t_shape(index),
    }
}

/// The piece type filed under slot `num` of the bag randomizer.
pub open spec fn spec_piece_type_of(num: int) -> PieceType {
    if num == 0 {
        PieceType::I
    } else if num == 1 {
        PieceType::J
    } else if num == 2 {
        PieceType::L
    } else if num == 3 {
        PieceType::O
    } else if num == 4 {
        PieceType::S
    } else if num == 5 {
        PieceType::T
    } else {
        PieceType::Z
    }
}

/// Given an integer that represents a type of piece, return the `PieceType`.
pub fn u8_to_piece_type(num: u8) -> (t: Option<PieceType>)
    requires
        num < 7,
    ensures
        t == Some(spec_piece_type_of(num as int)),
{
    match num {
        0 => Some(PieceType::I),
        1 => Some(PieceType::J),
        2 => Some(PieceType::L),
        3 => Some(PieceType::O),
        4 => Some(PieceType::S),
        5 => Some(PieceType::T),
        _ => Some(PieceType::Z),
    }
}

/// The rotation state reached from `current` by one step in `direction`
/// (-1 rotates counterclockwise and advances the index; any other value
/// rotates clockwise and retreats it).
pub open spec fn spec_next_rotation_index(current: u32, direction: i32) -> int {
    if direction == -1 {
        (current + 1) % 4
    } else {
        (current + 3) % 4
    }
}

/// Return the index of the next rotation shape, given the current rotation
/// shape's index and a direction.
pub fn next_rotation_index(current_index: u32, direction: i32) -> (next: u32)
    requires
        current_index < 4,
    ensures
        next == spec_next_rotation_index(current_index, direction),
        next < 4,
{
    if direction == -1 {
        match current_index {
            0 => 1,
            1 => 2,
            2 => 3,
            _ => 0,
        }
    } else {
        match current_index {
            0 => 3,
            1 => 0,
            2 => 1,
            _ => 2,
        }
    }
}

/// The colour assigned to blocks with tag `num`; a shadow block gets a
/// faded alpha channel.
pub open spec fn spec_block_colour(num: int, shadow: bool) -> Rgba {
    let alpha: u8 = if shadow { 75 } else { 255 };
    if num == 1 {
        Rgba { r: 0, g: 255, b: 255, a: alpha }
    } else if num == 2 {
        Rgba { r: 0, g: 0, b: 255, a: alpha }
    } else if num == 3 {
        Rgba { r: 255, g: 165, b: 0, a: alpha }
    } else if num == 4 {
        Rgba { r: 255, g: 255, b: 0, a: alpha }
    } else if num == 5 {
        Rgba { r: 128, g: 255, b: 0, a: alpha }
    } else if num == 6 {
        Rgba { r: 128, g: 0, b: 128, a: alpha }
    } else {
        Rgba { r: 255, g: 0, b: 0, a: alpha }
    }
}

/// Get the block colour depending on the shape. If `shadow` is true, the
/// colour's alpha channel is reduced.
pub fn block_to_colour(num: u32, shadow: bool) -> (c: Rgba)
    requires
        1 <= num <= 7,
    ensures
        c == spec_block_colour(num as int, shadow),
{
    let a: u8 = if shadow { 75 } else { 255 };
    match num {
        1 => Rgba { r: 0, g: 255, b: 255, a },
        2 => Rgba { r: 0, g: 0, b: 255, a },
        3 => Rgba { r: 255, g: 165, b: 0, a },
        4 => Rgba { r: 255, g: 255, b: 0, a },
        5 => Rgba { r: 128, g: 255, b: 0, a },
        6 => Rgba { r: 128, g: 0, b: 128, a },
        _ => Rgba { r: 255, g: 0, b: 0, a },
    }
}

/// The tetromino piece that the player controls.
pub struct Piece {
    pub shape: PieceShape,
    pub shape_type: PieceType,
    pub current_rotation_index: u32,
    pub top_left: Position,
    pub potential_top_left: Position,
    pub shadow_position: Position,
}

impl Piece {
    /// The piece's current shape matrix, as a mathematical grid.
    pub open spec fn grid(self) -> Seq<Seq<u32>> {
        self.shape.deep_view()
    }

    /// The piece's type.
    pub open spec fn kind(self) -> PieceType {
        self.shape_type
    }

    /// The piece's current rotation state.
    pub open spec fn rotation(self) -> u32 {
        self.current_rotation_index
    }

    /// The piece's shadow (ghost-drop) position.
    pub open spec fn shadow(self) -> Position {
        self.shadow_position
    }

    /// A piece is well-formed when its rotation index is a valid state and
    /// its shape matrix is the table entry for its type and rotation.
    pub open spec fn wf(self) -> bool {
        &&& self.rotation() < 4
        &&& self.grid() == spec_shape(self.kind(), self.rotation() as int)
    }

    /// Creates a new piece of type `PieceType`, in its spawn rotation and at
    /// the spawn position.
    pub fn new(shape_type: PieceType) -> (p: Piece)
        ensures
            p.wf(),
            p.kind() == shape_type,
            p.rotation() == 0,
            p.top_left == (Position { x: 3, y: 0 }),
            p.potential_top_left == (Position { x: 3, y: 0 }),
            p.shadow() == (Position { x: 3, y: 0 }),
    {
        let shape = piece_type_to_shape(shape_type, 0);

        Piece {
            shape,
            shape_type,
            top_left: Position { x: 3, y: 0 },
            potential_top_left: Position { x: 3, y: 0 },
            shadow_position: Position { x: 3, y: 0 },
            current_rotation_index: 0,
        }
    }

    /// Create a new piece from a reference of a `PieceType`.
    pub fn new_from_ref(shape_type: &PieceType) -> (p: Piece)
        ensures
            p.wf(),
            p.kind() == *shape_type,
            p.rotation() == 0,
            p.top_left == (Position { x: 3, y: 0 }),
            p.potential_top_left == (Position { x: 3, y: 0 }),
            p.shadow() == (Position { x: 3, y: 0 }),
    {
        Piece::new(*shape_type)
    }

    /// Return what the next shape of the current piece would be given a
    /// particular rotation `direction` (-1 for counterclockwise, 1 for
    /// clockwise).
    pub fn get_next_shape(&self, direction: i32) -> (s: PieceShape)
        requires
            self.wf(),
        ensures
            s.deep_view() == spec_shape(
                self.kind(),
                spec_next_rotation_index(self.rotation(), direction),
            ),
    {
        let next_index = next_rotation_index(self.current_rotation_index, direction);

        piece_type_to_shape(self.shape_type, next_index as usize)
    }

    /// Returns the current piece's shape.
    pub fn get_shape(&self) -> (s: PieceShape)
        ensures
            s.deep_view() == self.grid(),
    {
        self.shape
    }

    /// Returns the current piece's type.
    pub fn get_type(&self) -> (t: PieceType)
        ensures
            t == self.kind(),
    {
        self.shape_type
    }

    /// Given a direction, change the current piece's shape to its next
    /// rotation state.
    pub fn change_shape(&mut self, direction: i32)
        requires
            old(self).wf(),
        ensures
            final(self).wf(),
            final(self).kind() == old(self).kind(),
            final(self).rotation() == spec_next_rotation_index(old(self).rotation(), direction),
            final(self).top_left == old(self).top_left,
            final(self).potential_top_left == old(self).potential_top_left,
            final(self).shadow() == old(self).shadow(),
    {
        let next_index = next_rotation_index(self.current_rotation_index, direction);

        self.shape = piece_type_to_shape(self.shape_type, next_index as usize);
        self.current_rotation_index = next_index;
    }

    /// Set the current piece's shadow position.
    pub fn set_shadow_position(&mut self, shadow_pos: Position)
        ensures
            *final(self) == (Piece { shadow_position: shadow_pos, ..*old(self) }),
    {
        self.shadow_position = shadow_pos;
    }

    /// Get the current piece's shadow position.
    pub fn get_shadow_position(&self) -> (p: Position)
        ensures
            p == self.shadow(),
    {
        self.shadow_position
    }
}

} // verus!
