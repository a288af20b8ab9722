//! The play session: piece movement, rotation with wall kicks, gravity and
//! lock timing, the hold slot, line clearing, scoring and leveling.

use vstd::prelude::*;
use crate::bag::{PieceBag, full_bag_mset};
use crate::input::{InputState, spec_repeat_step, MAX_FRAME_TIME};
use crate::tetromino::{Piece, PieceType, Position};
use crate::tetromino::{spec_shape, spec_next_rotation_index, shape_ok, lemma_spec_shape_ok};
use crate::well::{Well, collides, lands, shape_in_bounds, landed_grid, cleared_grid};
use crate::well::nonfull_rows;

verus! {

/// How long a piece takes to fall one row at level 0, in microseconds.
pub const BASE_FALL_SPEED: u64 = 1_000_000;

/// Each new level removes a quarter of the gravity interval.
pub const FALL_SPEED_DIVISOR: u64 = 4;

/// How many lines must be cleared to reach the next level.
pub const LINES_PER_LEVEL: i32 = 10;

/// Reaching this level wins the session.
pub const MAX_LEVEL: u32 = 15;

/// Whether a finished session ended in a win or a loss.
#[derive(Debug, Copy, Clone, PartialEq, Eq, Structural)]
pub enum GameEndMode {
    Win,
    Lose,
}

/// The position a move attempt towards `(dx, dy)` commits: the candidate
/// one step from the piece's potential position, unless the candidate
/// collides, in which case the piece falls back to its confirmed position.
pub open spec fn spec_moved_to(
    g: Seq<Seq<u32>>,
    sh: Seq<Seq<u32>>,
    top: Position,
    pot: Position,
    dx: int,
    dy: int,
) -> Position {
    let cx = pot.x + dx;
    let cy = pot.y + dy;
    if collides(g, sh, cx, cy) {
        top
    } else {
        Position { x: cx as i32, y: cy as i32 }
    }
}

/// The session after a move attempt towards `(dx, dy)`: only the piece's
/// confirmed and working positions change, both to the committed spot.
pub open spec fn spec_piece_moved(o: PlayState, dx: int, dy: int, s: PlayState) -> bool {
    let np = spec_moved_to(
        o.well.grid(),
        o.current_piece.grid(),
        o.current_piece.top_left,
        o.current_piece.potential_top_left,
        dx,
        dy,
    );
    s == (PlayState {
        current_piece: Piece { top_left: np, potential_top_left: np, ..o.current_piece },
        ..o
    })
}

/// The session after a rotation attempt in `direction`: the first
/// collision-free candidate among the piece's own position, one column
/// right and one column left takes the next rotation shape; if all three
/// collide nothing changes.
pub open spec fn spec_piece_rotated(o: PlayState, direction: i32, s: PlayState) -> bool {
    let g = o.well.grid();
    let p = o.current_piece;
    let nrot = spec_next_rotation_index(p.rotation(), direction);
    let ns = spec_shape(p.kind(), nrot);
    let kicked_right = Position { x: (p.top_left.x + 1) as i32, y: p.top_left.y };
    let kicked_left = Position { x: (p.top_left.x - 1) as i32, y: p.top_left.y };
    &&& if !collides(g, ns, p.top_left.x as int, p.top_left.y as int) {
        s.current_piece.grid() == ns && s.current_piece.rotation() == nrot
            && s.current_piece.top_left == p.top_left && s.current_piece.potential_top_left
            == p.potential_top_left
    } else if !collides(g, ns, p.top_left.x + 1, p.top_left.y as int) {
        s.current_piece.grid() == ns && s.current_piece.rotation() == nrot
            && s.current_piece.top_left == kicked_right && s.current_piece.potential_top_left
            == kicked_right
    } else if !collides(g, ns, p.top_left.x - 1, p.top_left.y as int) {
        s.current_piece.grid() == ns && s.current_piece.rotation() == nrot
            && s.current_piece.top_left == kicked_left && s.current_piece.potential_top_left
            == kicked_left
    } else {
        s.current_piece == p
    }
    &&& s.current_piece.kind() == p.kind()
    &&& s.current_piece.shadow() == p.shadow()
    &&& s == (PlayState { current_piece: s.current_piece, ..o })
}

/// The session after a hard drop: the piece locks into the well at its
/// shadow position, the next piece is drawn from the bag, and the hold
/// slot is unlocked.
pub open spec fn spec_hard_dropped(o: PlayState, s: PlayState) -> bool {
    let p = o.current_piece;
    &&& s.well.grid() == landed_grid(
        o.well.grid(),
        p.grid(),
        p.shadow().x as int,
        p.shadow().y as int,
    )
    &&& s.current_piece.kind() == o.bag.queue@[0]
    &&& s.current_piece.rotation() == 0
    &&& s.current_piece.top_left == (Position { x: 3, y: 0 })
    &&& s.current_piece.potential_top_left == (Position { x: 3, y: 0 })
    &&& s.current_piece.shadow() == (Position { x: 3, y: 0 })
    &&& o.bag.queue@.len() > 1 ==> s.bag.queue@ == o.bag.queue@.drop_first()
    &&& o.bag.queue@.len() == 1 ==> s.bag.queue@.len() == 7 && s.bag.queue@.to_multiset()
        == full_bag_mset()
    &&& s == (PlayState {
        well: s.well,
        bag: s.bag,
        current_piece: s.current_piece,
        can_hold: true,
        ..o
    })
}

/// The session after a hold attempt: at most once per piece lifetime the
/// current piece is swapped with the held piece type, or with a fresh
/// piece from the bag when nothing is held yet; a hold whose held type
/// equals the current piece's type is refused.
pub open spec fn spec_held(o: PlayState, s: PlayState) -> bool {
    match o.hold_piece_type {
        Some(piece_type) => {
            if o.can_hold && piece_type != o.current_piece.kind() {
                &&& s.current_piece.kind() == piece_type
                &&& s.current_piece.rotation() == 0
                &&& s.current_piece.top_left == (Position { x: 3, y: 0 })
                &&& s.current_piece.potential_top_left == (Position { x: 3, y: 0 })
                &&& s.current_piece.shadow() == (Position { x: 3, y: 0 })
                &&& s == (PlayState {
                    current_piece: s.current_piece,
                    hold_piece_type: Some(o.current_piece.kind()),
                    can_hold: false,
                    ..o
                })
            } else {
                s == o
            }
        },
        None => {
            if o.can_hold {
                &&& s.current_piece.kind() == o.bag.queue@[0]
                &&& s.current_piece.rotation() == 0
                &&& s.current_piece.top_left == (Position { x: 3, y: 0 })
                &&& s.current_piece.potential_top_left == (Position { x: 3, y: 0 })
                &&& s.current_piece.shadow() == (Position { x: 3, y: 0 })
                &&& o.bag.queue@.len() > 1 ==> s.bag.queue@ == o.bag.queue@.drop_first()
                &&& o.bag.queue@.len() == 1 ==> s.bag.queue@.len() == 7
                    && s.bag.queue@.to_multiset() == full_bag_mset()
                &&& s == (PlayState {
                    current_piece: s.current_piece,
                    bag: s.bag,
                    hold_piece_type: Some(o.current_piece.kind()),
                    can_hold: false,
                    ..o
                })
            } else {
                s == o
            }
        },
    }
}

/// A position that a shape free of collisions can occupy is boxed in by
/// the well's walls.
pub proof fn lemma_collision_free_bounds(
    g: Seq<Seq<u32>>,
    t: PieceType,
    sh: Seq<Seq<u32>>,
    x: int,
    y: int,
)
    requires
        shape_ok(t, sh),
        !collides(g, sh, x, y),
    ensures
        -3 <= x <= 9,
        -3 <= y <= 21,
        shape_in_bounds(sh, x, y),
{
    let (r0, c0) = choose|r: int, c: int| 0 <= r < 4 && 0 <= c < 4 && #[trigger] sh[r][c] != 0;
    assert(sh[r0][c0] != 0);
    assert(0 <= c0 + x < 10 && 0 <= r0 + y < 22);
    assert forall|r: int, c: int|
        0 <= r < 4 && 0 <= c < 4 && #[trigger] sh[r][c] != 0 implies 0 <= c + x < 10 && 0 <= r + y
        < 22 by {}
}

/// A shape that fits on the grid somewhere is boxed in by the well's
/// walls.
pub proof fn lemma_in_bounds_coords(t: PieceType, sh: Seq<Seq<u32>>, x: int, y: int)
    requires
        shape_ok(t, sh),
        shape_in_bounds(sh, x, y),
    ensures
        -3 <= x <= 9,
        -3 <= y <= 21,
{
    let (r0, c0) = choose|r: int, c: int| 0 <= r < 4 && 0 <= c < 4 && #[trigger] sh[r][c] != 0;
    assert(sh[r0][c0] != 0);
    assert(0 <= c0 + x < 10 && 0 <= r0 + y < 22);
}

/// A position where a shape does not land keeps every block above the
/// well's floor.
pub proof fn lemma_landing_free_bound(
    g: Seq<Seq<u32>>,
    t: PieceType,
    sh: Seq<Seq<u32>>,
    x: int,
    y: int,
)
    requires
        shape_ok(t, sh),
        !lands(g, sh, x, y),
    ensures
        y <= 21,
{
    let (r0, c0) = choose|r: int, c: int| 0 <= r < 4 && 0 <= c < 4 && #[trigger] sh[r][c] != 0;
    assert(sh[r0][c0] != 0);
    assert(r0 + y < 22);
}

/// What one frame of gravity does: nothing but the fall timer until it
/// passes the gravity interval; then the piece advances one row, or
/// lands — locking it into the well and drawing the next piece — or,
/// when it never left the vanish zone, ends the session.
pub open spec fn spec_gravity_stepped(o: PlayState, dt: u64, advanced: bool, s: PlayState) -> bool {
    let p = o.current_piece;
    let g = o.well.grid();
    let cand = Position { x: p.potential_top_left.x, y: (p.potential_top_left.y + 1) as i32 };
    let landed = lands(g, p.grid(), cand.x as int, cand.y as int);
    if o.fall_timer + dt < o.time_until_gravity {
        advanced && s == (PlayState { fall_timer: (o.fall_timer + dt) as u64, ..o })
    } else if !landed {
        advanced && s.current_piece == (Piece { top_left: cand, potential_top_left: cand, ..p })
            && s == (PlayState { fall_timer: 0, current_piece: s.current_piece, ..o })
    } else if p.top_left.y < 2 {
        !advanced && s.current_piece == (Piece { potential_top_left: cand, ..p }) && s
            == (PlayState {
            fall_timer: 0,
            game_over: true,
            current_piece: s.current_piece,
            ..o
        })
    } else {
        &&& !advanced
        &&& s.well.grid() == landed_grid(g, p.grid(), p.top_left.x as int, p.top_left.y as int)
        &&& s.fall_timer == 0
        &&& s.can_hold
        &&& s.current_piece.kind() == o.bag.queue@[0]
        &&& s.current_piece.rotation() == 0
        &&& s.current_piece.top_left == (Position { x: 3, y: 0 })
        &&& s.current_piece.potential_top_left == (Position { x: 3, y: 0 })
        &&& s.current_piece.shadow() == (Position { x: 3, y: 0 })
        &&& o.bag.queue@.len() > 1 ==> s.bag.queue@ == o.bag.queue@.drop_first()
        &&& o.bag.queue@.len() == 1 ==> s.bag.queue@.len() == 7 && s.bag.queue@.to_multiset()
            == full_bag_mset()
        &&& s == (PlayState {
            fall_timer: 0,
            can_hold: true,
            current_piece: s.current_piece,
            bag: s.bag,
            well: s.well,
            ..o
        })
    }
}

/// What one shadow recomputation does: the shadow moves to the spot
/// where the current piece would come to rest if dropped straight down
/// from its confirmed position; nothing else changes.
pub open spec fn spec_shadow_recomputed(o: PlayState, s: PlayState) -> bool {
    let sp = Position {
        x: o.current_piece.top_left.x,
        y: spec_drop_y(
            o.well.grid(),
            o.current_piece.grid(),
            o.current_piece.top_left.x as int,
            o.current_piece.top_left.y as int,
        ) as i32,
    };
    s == (PlayState {
        current_piece: Piece { shadow_position: sp, ..o.current_piece },
        ..o
    })
}

/// What one line-clear pass does: every full row leaves the well and
/// as many empty rows enter at the top; the score grows by the clear's
/// value at the session's level, the cleared-line tally grows by the
/// number of rows cleared, and once the line quota is used up the level
/// rises and the gravity interval loses a quarter.
pub open spec fn spec_lines_cleared(o: PlayState, s: PlayState) -> bool {
    let n = 22 - nonfull_rows(o.well.grid()).len();
    let gain = spec_line_clear_score(n as u32, o.level);
    &&& s.well.grid() == cleared_grid(o.well.grid())
    &&& s.score == (
        if o.score + gain <= u32::MAX {
            o.score + gain
        } else {
            u32::MAX as int
        }
    )
    &&& s.cleared_lines == (
        if o.cleared_lines + n <= u32::MAX {
            o.cleared_lines + n
        } else {
            u32::MAX as int
        }
    )
    &&& o.lines_until_next_level - n <= 0 ==> s.level == o.level + 1
        && s.lines_until_next_level == LINES_PER_LEVEL && s.time_until_gravity
        == o.time_until_gravity - o.time_until_gravity / FALL_SPEED_DIVISOR
    &&& o.lines_until_next_level - n > 0 ==> s.level == o.level && s.lines_until_next_level
        == o.lines_until_next_level - n && s.time_until_gravity == o.time_until_gravity
    &&& s == (PlayState {
        well: s.well,
        score: s.score,
        cleared_lines: s.cleared_lines,
        lines_until_next_level: s.lines_until_next_level,
        level: s.level,
        time_until_gravity: s.time_until_gravity,
        ..o
    })
}

/// What one frame of input handling does: the first active input in
/// priority order is acted on. Held movement inputs run their
/// auto-repeat timers and move the piece when they fire; rotation, the
/// hard drop and the hold act only on the frame their input first
/// becomes active.
pub open spec fn spec_input_handled(o: PlayState, dt: u64, s: PlayState) -> bool {
    if o.input.left.is_active {
        let fr = spec_repeat_step(o.input.left, dt);
        let oi = PlayState { input: InputState { left: fr.0, ..o.input }, ..o };
        if fr.1 {
            spec_piece_moved(oi, -1, 0, s)
        } else {
            s == oi
        }
    } else if o.input.right.is_active {
        let fr = spec_repeat_step(o.input.right, dt);
        let oi = PlayState { input: InputState { right: fr.0, ..o.input }, ..o };
        if fr.1 {
            spec_piece_moved(oi, 1, 0, s)
        } else {
            s == oi
        }
    } else if o.input.soft_drop.is_active {
        let fr = spec_repeat_step(o.input.soft_drop, dt);
        let oi = PlayState { input: InputState { soft_drop: fr.0, ..o.input }, ..o };
        if fr.1 {
            spec_piece_moved(oi, 0, 1, s)
        } else {
            s == oi
        }
    } else if o.input.rotate_clockwise.is_active {
        if o.input.rotate_clockwise.is_active != o.prev_input.rotate_clockwise.is_active {
            spec_piece_rotated(o, 1 as i32, s)
        } else {
            s == o
        }
    } else if o.input.rotate_counterclockwise.is_active {
        if o.input.rotate_counterclockwise.is_active
            != o.prev_input.rotate_counterclockwise.is_active {
            spec_piece_rotated(o, (-1) as i32, s)
        } else {
            s == o
        }
    } else if o.input.hard_drop.is_active {
        if o.input.hard_drop.is_active != o.prev_input.hard_drop.is_active {
            spec_hard_dropped(o, s)
        } else {
            s == o
        }
    } else if o.input.hold.is_active && o.input.hold.is_active != o.prev_input.hold.is_active {
        spec_held(o, s)
    } else {
        s == o
    }
}

/// The whole state of one play session.
pub struct PlayState {
    pub input: InputState,
    pub prev_input: InputState,

    pub well: Well,
    pub bag: PieceBag,
    pub current_piece: Piece,
    pub hold_piece_type: Option<PieceType>,
    pub can_hold: bool,

    pub fall_timer: u64,
    pub time_until_gravity: u64,
    pub score: u32,
    pub cleared_lines: u32,
    pub lines_until_next_level: i32,
    pub level: u32,
    pub game_over: bool,
}

impl PlayState {
    /// The session invariant apart from the shadow: the well, bag and
    /// piece are well formed, the piece's confirmed position keeps it on
    /// the grid, the working position stays one step around it, and the
    /// timers and the level counter are in their working ranges.
    pub open spec fn core_wf(self) -> bool {
        &&& self.well.wf()
        &&& self.bag.wf()
        &&& self.current_piece.wf()
        &&& self.input.wf()
        &&& shape_in_bounds(
            self.current_piece.grid(),
            self.current_piece.top_left.x as int,
            self.current_piece.top_left.y as int,
        )
        &&& -3 <= self.current_piece.potential_top_left.x <= 9
        &&& -3 <= self.current_piece.potential_top_left.y <= 22
        &&& !self.game_over ==> self.current_piece.potential_top_left
            == self.current_piece.top_left
        &&& self.fall_timer <= BASE_FALL_SPEED
        &&& 1 <= self.time_until_gravity <= BASE_FALL_SPEED
        &&& 1 <= self.lines_until_next_level <= LINES_PER_LEVEL
    }

    /// The full session invariant: additionally, the shadow position can
    /// hold the piece's current shape on the grid, so a hard drop may
    /// lock the piece there.
    pub open spec fn wf(self) -> bool {
        &&& self.core_wf()
        &&& shape_in_bounds(
            self.current_piece.grid(),
            self.current_piece.shadow().x as int,
            self.current_piece.shadow().y as int,
        )
    }

    /// Starts a fresh session: an empty well, a newly shuffled bag with
    /// its first piece drawn, and all counters at their starting values.
    pub fn new() -> (s: PlayState)
        ensures
            s.wf(),
            !s.game_over,
            s.score == 0,
            s.cleared_lines == 0,
            s.level == 0,
            s.lines_until_next_level == LINES_PER_LEVEL,
            s.fall_timer == 0,
            s.time_until_gravity == BASE_FALL_SPEED,
            s.can_hold,
            s.hold_piece_type is None,
            forall|i: int, j: int|
                0 <= i < 22 && 0 <= j < 10 ==> #[trigger] s.well.grid()[i][j] == 0,
            s.current_piece.rotation() == 0,
            s.current_piece.top_left == (Position { x: 3, y: 0 }),
            s.current_piece.potential_top_left == (Position { x: 3, y: 0 }),
            s.current_piece.shadow() == (Position { x: 3, y: 0 }),
            s.bag.queue@.len() == 6,
            // the bag still holds every piece type but the one in play
            s.bag.queue@.to_multiset().insert(s.current_piece.kind()) == full_bag_mset(),
            s.input == InputState::default_spec(),
            s.prev_input == InputState::default_spec(),
    {
        let mut bag = PieceBag::new();
        let ghost q0 = bag.queue@;
        let first_piece = bag.take_piece();
        proof {
            lemma_spec_shape_ok(first_piece.kind(), first_piece.rotation() as int);
            broadcast use vstd::seq_lib::group_to_multiset_ensures;
            assert(q0.drop_first() =~= q0.remove(0));
            assert(q0.remove(0).to_multiset() =~= q0.to_multiset().remove(q0[0]));
            assert(q0.to_multiset().count(q0[0]) > 0) by {
                assert(q0.contains(q0[0]));
            }
            assert(q0.drop_first().to_multiset().insert(q0[0]) =~= q0.to_multiset());
        }

        PlayState {
            input: InputState::default(),
            prev_input: InputState::default(),

            well: Well::new(),
            bag,
            current_piece: first_piece,
            hold_piece_type: None,

            fall_timer: 0,
            time_until_gravity: BASE_FALL_SPEED,
            score: 0,
            cleared_lines: 0,
            lines_until_next_level: LINES_PER_LEVEL,
            level: 0,
            can_hold: true,
            game_over: false,
        }
    }

    /// Attempt to move the current piece one step towards `direction`.
    /// The move commits when the stepped position is collision free and
    /// is abandoned otherwise; both the confirmed and the working
    /// position end on the committed spot.
    pub fn move_piece(&mut self, direction: Position)
        requires
            old(self).core_wf(),
            -1 <= direction.x <= 1,
            0 <= direction.y <= 1,
        ensures
            final(self).core_wf(),
            spec_piece_moved(*old(self), direction.x as int, direction.y as int, *final(self)),
    {
        proof {
            lemma_spec_shape_ok(
                self.current_piece.kind(),
                self.current_piece.rotation() as int,
            );
            lemma_in_bounds_coords(
                self.current_piece.kind(),
                self.current_piece.grid(),
                self.current_piece.top_left.x as int,
                self.current_piece.top_left.y as int,
            );
        }
        self.current_piece.potential_top_left.x = self.current_piece.potential_top_left.x
            + direction.x;
        self.current_piece.potential_top_left.y = self.current_piece.potential_top_left.y
            + direction.y;

        let current_shape = self.current_piece.get_shape();
        let collision_found = self.well.check_for_collisions(
            &current_shape,
            &self.current_piece.potential_top_left,
        );

        if collision_found {
            self.current_piece.potential_top_left = self.current_piece.top_left;
        } else {
            proof {
                lemma_collision_free_bounds(
                    self.well.grid(),
                    self.current_piece.kind(),
                    self.current_piece.grid(),
                    self.current_piece.potential_top_left.x as int,
                    self.current_piece.potential_top_left.y as int,
                );
            }
        }

        self.current_piece.top_left = self.current_piece.potential_top_left;
    }

    /// Attempt to rotate the current piece one step in `direction`. The
    /// rotation commits at the piece's own position when that is
    /// collision free; otherwise it is retried one column to the right,
    /// then one to the left (the wall kick); if all three candidate
    /// positions collide the rotation is rejected and the piece is left
    /// unchanged.
    #[verifier::rlimit(60)]
    pub fn rotate_piece(&mut self, direction: i32)
        requires
            old(self).core_wf(),
        ensures
            final(self).core_wf(),
            spec_piece_rotated(*old(self), direction, *final(self)),
    {
        let next_shape = self.current_piece.get_next_shape(direction);
        proof {
            lemma_spec_shape_ok(
                self.current_piece.kind(),
                spec_next_rotation_index(self.current_piece.rotation(), direction),
            );
        }
        let collision_found = self.well.check_for_collisions(
            &next_shape,
            &self.current_piece.top_left,
        );

        if !collision_found {
            proof {
                lemma_collision_free_bounds(
                    self.well.grid(),
                    self.current_piece.kind(),
                    next_shape.deep_view(),
                    self.current_piece.top_left.x as int,
                    self.current_piece.top_left.y as int,
                );
                lemma_in_bounds_coords(
                    self.current_piece.kind(),
                    self.current_piece.grid(),
                    self.current_piece.top_left.x as int,
                    self.current_piece.top_left.y as int,
                );
            }
            self.current_piece.change_shape(direction);
        } else {
            // wall kick attempt: retry one column right, then one left
            let mut potential_position = self.current_piece.top_left;
            potential_position.x = potential_position.x + 1;
            let collision_found = self.well.check_for_collisions(
                &next_shape,
                &potential_position,
            );

            if !collision_found {
                proof {
                    lemma_collision_free_bounds(
                        self.well.grid(),
                        self.current_piece.kind(),
                        next_shape.deep_view(),
                        potential_position.x as int,
                        potential_position.y as int,
                    );
                }
                self.current_piece.top_left = potential_position;
                self.current_piece.potential_top_left = potential_position;
                self.current_piece.change_shape(direction);
            } else {
                let mut potential_position = self.current_piece.top_left;
                potential_position.x = potential_position.x - 1;
                let collision_found = self.well.check_for_collisions(
                    &next_shape,
                    &potential_position,
                );

                if !collision_found {
                    proof {
                        lemma_collision_free_bounds(
                            self.well.grid(),
                            self.current_piece.kind(),
                            next_shape.deep_view(),
                            potential_position.x as int,
                            potential_position.y as int,
                        );
                    }
                    self.current_piece.top_left = potential_position;
                    self.current_piece.potential_top_left = potential_position;
                    self.current_piece.change_shape(direction);
                }
            }
        }
    }

    /// Advance the fall timer by one frame of `dt` microseconds. When the
    /// timer runs past the gravity interval, try to move the piece down
    /// one row: the piece either advances, or lands — which locks it into
    /// the well and draws the next piece, or ends the session when the
    /// piece never left the vanish zone.
    /// Returns false if a landing or the game's end occurred, true
    /// otherwise.
    #[verifier::rlimit(60)]
    pub fn handle_gravity(&mut self, dt: u64) -> (advanced: bool)
        requires
            old(self).core_wf(),
            !old(self).game_over,
            dt <= MAX_FRAME_TIME,
        ensures
            final(self).core_wf(),
            spec_gravity_stepped(*old(self), dt, advanced, *final(self)),
    {
        proof {
            lemma_spec_shape_ok(
                self.current_piece.kind(),
                self.current_piece.rotation() as int,
            );
            lemma_in_bounds_coords(
                self.current_piece.kind(),
                self.current_piece.grid(),
                self.current_piece.top_left.x as int,
                self.current_piece.top_left.y as int,
            );
        }
        self.fall_timer = self.fall_timer + dt;

        if self.fall_timer >= self.time_until_gravity {
            let current_shape = self.current_piece.get_shape();
            self.fall_timer = 0;
            self.current_piece.potential_top_left.y = self.current_piece.potential_top_left.y + 1;

            let did_land = self.well.check_for_landing(
                &current_shape,
                &self.current_piece.potential_top_left,
            );

            if did_land {
                if self.current_piece.top_left.y < 2 {
                    self.game_over = true;
                    return false;
                }

                // game isn't over - take another piece and move to next frame
                self.well.land(&self.current_piece);
                self.current_piece = self.bag.take_piece();
                self.can_hold = true;
                return false;
            }

            // piece did not land - advance!
            proof {
                lemma_landing_free_bound(
                    self.well.grid(),
                    self.current_piece.kind(),
                    self.current_piece.grid(),
                    self.current_piece.potential_top_left.x as int,
                    self.current_piece.potential_top_left.y as int,
                );
                assert forall|r: int, c: int|
                    0 <= r < 4 && 0 <= c < 4 && #[trigger] self.current_piece.grid()[r][c] != 0
                    implies 0 <= c + self.current_piece.potential_top_left.x < 10 && 0 <= r
                    + self.current_piece.potential_top_left.y < 22 by {
                    assert(0 <= c + old(self).current_piece.top_left.x < 10);
                    assert(0 <= r + old(self).current_piece.top_left.y < 22);
                }
            }
            self.current_piece.top_left = self.current_piece.potential_top_left;
        }

        true
    }

    /// Recompute the position of the shadow piece: the spot where the
    /// current piece would come to rest if dropped straight down.
    pub fn handle_shadow_piece(&mut self)
        requires
            old(self).core_wf(),
            !old(self).game_over,
        ensures
            final(self).wf(),
            spec_shadow_recomputed(*old(self), *final(self)),
    {
        let ghost g = self.well.grid();
        let ghost sh = self.current_piece.grid();
        let ghost x0 = self.current_piece.top_left.x as int;
        let ghost y0 = self.current_piece.top_left.y as int;
        proof {
            lemma_spec_shape_ok(
                self.current_piece.kind(),
                self.current_piece.rotation() as int,
            );
            lemma_in_bounds_coords(self.current_piece.kind(), sh, x0, y0);
            lemma_drop_y_range(g, sh, x0, y0);
        }
        let current_shape = self.current_piece.get_shape();
        let mut shadow_position = self.current_piece.top_left;
        let mut potential_shadow_position = shadow_position;
        loop
            invariant_except_break
                potential_shadow_position == shadow_position,
            invariant
                self == old(self),
                self.core_wf(),
                current_shape.deep_view() == sh,
                g == self.well.grid(),
                sh == self.current_piece.grid(),
                x0 == self.current_piece.top_left.x as int,
                y0 == self.current_piece.top_left.y as int,
                has_block(sh),
                shadow_position.x == x0,
                y0 <= shadow_position.y <= 21,
                spec_drop_y(g, sh, x0, shadow_position.y as int) == spec_drop_y(g, sh, x0, y0),
            ensures
                shadow_position.x == x0,
                shadow_position.y == spec_drop_y(g, sh, x0, y0),
            decreases 21 - shadow_position.y,
        {
            potential_shadow_position.y = potential_shadow_position.y + 1;
            let collision_found = self.well.check_for_landing(
                &current_shape,
                &potential_shadow_position,
            );

            if collision_found {
                proof {
                    assert(spec_drop_y(g, sh, x0, shadow_position.y as int)
                        == shadow_position.y as int);
                }
                break ;
            }

            proof {
                let (r0, c0) = choose|r: int, c: int|
                    0 <= r < 4 && 0 <= c < 4 && #[trigger] sh[r][c] != 0;
                assert(sh[r0][c0] != 0);
                assert(r0 + potential_shadow_position.y < 22);
            }
            shadow_position = potential_shadow_position;
        }
        proof {
            lemma_drop_y_range(g, sh, x0, y0);
            assert forall|r: int, c: int|
                0 <= r < 4 && 0 <= c < 4 && #[trigger] sh[r][c] != 0 implies 0 <= c
                + shadow_position.x < 10 && 0 <= r + shadow_position.y < 22 by {
                assert(0 <= c + x0 < 10);
                assert(0 <= r + y0 < 22);
                if shadow_position.y as int != y0 {
                    assert(!lands(g, sh, x0, shadow_position.y as int));
                }
            }
        }
        self.current_piece.set_shadow_position(shadow_position);
    }

    /// Will attempt to swap the current piece into the 'Hold' area, at
    /// most once per piece lifetime: the held piece (or, the first time,
    /// a fresh piece from the bag) becomes the current piece. A hold is
    /// refused when the held piece has the same type as the current one.
    pub fn handle_hold(&mut self)
        requires
            old(self).core_wf(),
        ensures
            final(self).core_wf(),
            spec_held(*old(self), *final(self)),
    {
        // can only perform a hold once per piece turn
        // a piece turn ends when the current piece lands
        if self.can_hold {
            let current_type = self.current_piece.get_type();
            if let Some(piece_type) = self.hold_piece_type {
                if piece_type != current_type {
                    proof {
                        lemma_spec_shape_ok(piece_type, 0);
                    }
                    self.current_piece = Piece::new(piece_type);
                    self.hold_piece_type = Some(current_type);
                    self.can_hold = false;
                }
            } else {
                self.current_piece = self.bag.take_piece();
                proof {
                    lemma_spec_shape_ok(
                        self.current_piece.kind(),
                        self.current_piece.rotation() as int,
                    );
                }
                self.hold_piece_type = Some(current_type);
                self.can_hold = false;
            }
        }
    }

    /// Check for filled rows and ask the well to clear them. Adds the
    /// number of lines cleared to `cleared_lines`, awards the score for
    /// the clear, and increases the level once the next level threshold
    /// has been met.
    pub fn handle_line_clears(&mut self)
        requires
            old(self).core_wf(),
            old(self).level < u32::MAX,
        ensures
            final(self).core_wf(),
            spec_lines_cleared(*old(self), *final(self)),
    {
        let lines_cleared: u32 = self.well.clear_lines();

        // add to score
        let level = self.level;
        match lines_cleared {
            1 => self.increase_score(40, level),
            2 => self.increase_score(100, level),
            3 => self.increase_score(300, level),
            4 => self.increase_score(1200, level),
            _ => (),
        }

        self.lines_until_next_level = self.lines_until_next_level - lines_cleared as i32;
        if self.lines_until_next_level <= 0 {
            self.increase_level();
            self.lines_until_next_level = LINES_PER_LEVEL;
        }
        self.cleared_lines = if self.cleared_lines <= u32::MAX - lines_cleared {
            self.cleared_lines + lines_cleared
        } else {
            u32::MAX
        };
    }

    /// Add the score for one clear to the session total: the base value
    /// times the level plus one, clamped to fit a u32.
    pub fn increase_score(&mut self, base_score: u32, level: u32)
        requires
            base_score <= 1200,
        ensures
            final(self).score == (
                if old(self).score + base_score * (level + 1) <= u32::MAX {
                    old(self).score + base_score * (level + 1)
                } else {
                    u32::MAX as int
                }
            ),
            *final(self) == (PlayState { score: final(self).score, ..*old(self) }),
    {
        proof {
            vstd::arithmetic::mul::lemma_mul_upper_bound(
                base_score as int,
                1200,
                level as int + 1,
                0x1_0000_0000,
            );
        }
        let gain: u64 = (base_score as u64) * (level as u64 + 1);
        let total: u64 = self.score as u64 + gain;
        self.score = if total <= u32::MAX as u64 {
            total as u32
        } else {
            u32::MAX
        };
    }

    /// Increase the level and adjust the current rate at which pieces
    /// drop: each level removes a quarter of the gravity interval.
    pub fn increase_level(&mut self)
        requires
            old(self).level < u32::MAX,
        ensures
            final(self).level == old(self).level + 1,
            final(self).time_until_gravity == old(self).time_until_gravity - old(
                self
            ).time_until_gravity / FALL_SPEED_DIVISOR,
            *final(self) == (PlayState {
                level: final(self).level,
                time_until_gravity: final(self).time_until_gravity,
                ..*old(self)
            }),
    {
        self.level = self.level + 1;

        // increase gravity
        let change = self.time_until_gravity / FALL_SPEED_DIVISOR;
        self.time_until_gravity = self.time_until_gravity - change;
    }

    /// Act on the player's inputs for one frame: held movement keys
    /// auto-repeat through their delay timers, while rotation, the hard
    /// drop and the hold act only on the frame they are first pressed.
    /// At most one action, the first active one in priority order, is
    /// handled per frame.
    #[verifier::rlimit(80)]
    pub fn handle_user_input(&mut self, dt: u64)
        requires
            old(self).wf(),
            !old(self).game_over,
            dt <= MAX_FRAME_TIME,
        ensures
            final(self).core_wf(),
            !final(self).game_over,
            spec_input_handled(*old(self), dt, *final(self)),
    {
        if self.input.left.is_active {
            let fire = self.input.left.advance_repeat(dt);
            if fire {
                self.move_piece(Position { x: -1, y: 0 });
            }
        } else if self.input.right.is_active {
            let fire = self.input.right.advance_repeat(dt);
            if fire {
                self.move_piece(Position { x: 1, y: 0 });
            }
        } else if self.input.soft_drop.is_active {
            let fire = self.input.soft_drop.advance_repeat(dt);
            if fire {
                self.move_piece(Position { x: 0, y: 1 });
            }
        } else if self.input.rotate_clockwise.is_active {
            if self.input.rotate_clockwise.is_active
                != self.prev_input.rotate_clockwise.is_active {
                self.rotate_piece(1);
            }
        } else if self.input.rotate_counterclockwise.is_active {
            if self.input.rotate_counterclockwise.is_active
                != self.prev_input.rotate_counterclockwise.is_active {
                self.rotate_piece(-1);
            }
        } else if self.input.hard_drop.is_active {
            if self.input.hard_drop.is_active != self.prev_input.hard_drop.is_active {
                proof {
                    lemma_spec_shape_ok(
                        self.current_piece.kind(),
                        self.current_piece.rotation() as int,
                    );
                }
                self.current_piece.top_left = self.current_piece.get_shadow_position();
                self.well.land(&self.current_piece);
                self.current_piece = self.bag.take_piece();
                self.can_hold = true;
            }
        } else if self.input.hold.is_active && self.input.hold.is_active
            != self.prev_input.hold.is_active {
            self.handle_hold();
        }
    }

    /// Run one frame of the session: report a finished game, otherwise
    /// handle the player's input, recompute the shadow, let gravity act,
    /// and, unless the piece just landed, clear any full rows.
    pub fn step(&mut self, dt: u64) -> (outcome: Option<GameEndMode>)
        requires
            old(self).wf(),
            dt <= MAX_FRAME_TIME,
        ensures
            final(self).wf(),
            old(self).game_over ==> outcome == Some(GameEndMode::Lose) && *final(self) == *old(
                self
            ),
            !old(self).game_over && old(self).level >= MAX_LEVEL ==> outcome == Some(
                GameEndMode::Win,
            ) && *final(self) == *old(self),
            !old(self).game_over && old(self).level < MAX_LEVEL ==> outcome is None,
            outcome is None ==> final(self).prev_input == final(self).input,
            outcome is None ==> final(self).score >= old(self).score && final(self).cleared_lines
                >= old(self).cleared_lines && final(self).level >= old(self).level,
            // one ordinary frame is the composition of the four phases:
            // input handling, the shadow recomputation on the state whose
            // previous inputs were just recorded, gravity, and - unless
            // the piece landed this frame - the line-clear pass
            outcome is None ==> exists|s1: PlayState, s2: PlayState, s3: PlayState, adv: bool|
                {
                    &&& #[trigger] spec_input_handled(*old(self), dt, s1)
                    &&& #[trigger] spec_shadow_recomputed(
                        (PlayState { prev_input: s1.input, ..s1 }),
                        s2,
                    )
                    &&& #[trigger] spec_gravity_stepped(s2, dt, adv, s3)
                    &&& if adv {
                        spec_lines_cleared(s3, *final(self))
                    } else {
                        *final(self) == s3
                    }
                },
    {
        if self.game_over {
            return Some(GameEndMode::Lose);
        }
        if self.level >= MAX_LEVEL {
            return Some(GameEndMode::Win);
        }

        self.handle_user_input(dt);
        let ghost after_input = *self;
        self.prev_input = self.input;

        self.handle_shadow_piece();
        let ghost after_shadow = *self;

        // handle gravity - stop this frame if the current piece landed
        let advanced = self.handle_gravity(dt);
        let ghost after_gravity = *self;
        if !advanced {
            proof {
                lemma_spec_shape_ok(
                    self.current_piece.kind(),
                    self.current_piece.rotation() as int,
                );
                assert(spec_shadow_recomputed(
                    (PlayState { prev_input: after_input.input, ..after_input }),
                    after_shadow,
                ));
                assert(spec_gravity_stepped(after_shadow, dt, false, after_gravity));
            }
            return None;
        }

        let ghost pre_clear = *self;
        self.handle_line_clears();
        proof {
            crate::well::lemma_nonfull_rows_len(pre_clear.well.grid());
            lemma_line_clear_score_nonneg(
                (22 - nonfull_rows(pre_clear.well.grid()).len()) as u32,
                pre_clear.level,
            );
            assert(spec_shadow_recomputed(
                (PlayState { prev_input: after_input.input, ..after_input }),
                after_shadow,
            ));
            assert(spec_gravity_stepped(after_shadow, dt, true, after_gravity));
            assert(spec_lines_cleared(after_gravity, *self));
        }

        None
    }
}

/// The score awarded for a simultaneous clear of `lines` lines at level
/// `level`: a fixed base value for one, two, three or four lines at
/// once, multiplied by the level plus one.
pub open spec fn spec_line_clear_score(lines: u32, level: u32) -> int {
    let base: int = if lines == 1 {
        40
    } else if lines == 2 {
        100
    } else if lines == 3 {
        300
    } else if lines == 4 {
        1200
    } else {
        0
    };
    base * (level + 1)
}

/// A line clear never takes points away.
pub proof fn lemma_line_clear_score_nonneg(lines: u32, level: u32)
    ensures
        spec_line_clear_score(lines, level) >= 0,
{
    let base: int = if lines == 1 {
        40
    } else if lines == 2 {
        100
    } else if lines == 3 {
        300
    } else if lines == 4 {
        1200
    } else {
        0
    };
    vstd::arithmetic::mul::lemma_mul_nonnegative(base, level as int + 1);
}

/// The score a clear of `lines` lines at level `level` awards, clamped
/// to fit a u32.
pub fn line_clear_score(lines: u32, level: u32) -> (points: u32)
    ensures
        points == (
            if spec_line_clear_score(lines, level) <= u32::MAX {
                spec_line_clear_score(lines, level)
            } else {
                u32::MAX as int
            }
        ),
{
    let base: u32 = if lines == 1 {
        40
    } else if lines == 2 {
        100
    } else if lines == 3 {
        300
    } else if lines == 4 {
        1200
    } else {
        0
    };
    proof {
        vstd::arithmetic::mul::lemma_mul_upper_bound(base as int, 1200, level as int + 1, 0x1_0000_0000);
    }
    let total: u64 = (base as u64) * (level as u64 + 1);
    if total <= u32::MAX as u64 {
        total as u32
    } else {
        u32::MAX
    }
}

/// True when the shape has at least one occupied cell.
pub open spec fn has_block(sh: Seq<Seq<u32>>) -> bool {
    exists|r: int, c: int| 0 <= r < 4 && 0 <= c < 4 && #[trigger] sh[r][c] != 0
}

/// The row on which the shape comes to rest when dropped straight down
/// from `(x, y)`: the first row at or below `y` from which one more step
/// would land.
pub open spec fn spec_drop_y(g: Seq<Seq<u32>>, sh: Seq<Seq<u32>>, x: int, y: int) -> int
    decreases 22 - y
        when has_block(sh) && y <= 21
        via drop_y_decreases
{
    if lands(g, sh, x, y + 1) {
        y
    } else {
        spec_drop_y(g, sh, x, y + 1)
    }
}

#[via_fn]
proof fn drop_y_decreases(g: Seq<Seq<u32>>, sh: Seq<Seq<u32>>, x: int, y: int) {
    if !lands(g, sh, x, y + 1) {
        let (r0, c0) = choose|r: int, c: int|
            0 <= r < 4 && 0 <= c < 4 && #[trigger] sh[r][c] != 0;
        assert(sh[r0][c0] != 0);
        assert(r0 + y + 1 < 22);
    }
}

/// The drop row lies between the starting row and the well's floor, and
/// unless the piece rests where it started, one cannot land there.
pub proof fn lemma_drop_y_range(g: Seq<Seq<u32>>, sh: Seq<Seq<u32>>, x: int, y: int)
    requires
        has_block(sh),
        y <= 21,
    ensures
        y <= spec_drop_y(g, sh, x, y) <= 21,
        spec_drop_y(g, sh, x, y) == y || !lands(g, sh, x, spec_drop_y(g, sh, x, y)),
    decreases 22 - y,
{
    if !lands(g, sh, x, y + 1) {
        let (r0, c0) = choose|r: int, c: int|
            0 <= r < 4 && 0 <= c < 4 && #[trigger] sh[r][c] != 0;
        assert(sh[r0][c0] != 0);
        assert(r0 + y + 1 < 22);
        lemma_drop_y_range(g, sh, x, y + 1);
    }
}

} // verus!
