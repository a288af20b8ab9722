//! The well: the fixed playing-field grid and the block operations on it.

use vstd::prelude::*;
use crate::tetromino::{Piece, PieceShape};
use crate::tetromino::Position;
use crate::tetromino::lemma_spec_shape_ok;
use crate::tetromino::shape_ok;
use crate::tetromino::piece_tag;

verus! {

/// The well is a grid of 22 rows of 10 cells. A 0 is an empty cell; a
/// non-zero cell holds the colour tag of the piece that landed there. The
/// top two rows are the hidden vanish zone where pieces spawn.
#[derive(Debug)]
pub struct Well {
    pub data: [[u32; 10]; 22],
}

/// An empty row of the well.
pub open spec fn zero_row() -> Seq<u32> {
    Seq::new(10, |j: int| 0u32)
}

/// `n` empty rows.
pub open spec fn zero_rows(n: nat) -> Seq<Seq<u32>> {
    Seq::new(n, |i: int| zero_row())
}

/// A row is full when every one of its cells is occupied.
pub open spec fn row_full(row: Seq<u32>) -> bool {
    forall|j: int| 0 <= j < 10 ==> #[trigger] row[j] != 0
}

/// True when the candidate position `(x, y)` places some occupied cell of
/// `sh` outside the well's columns or rows, or over an occupied well cell.
pub open spec fn collides(g: Seq<Seq<u32>>, sh: Seq<Seq<u32>>, x: int, y: int) -> bool {
    exists|r: int, c: int|
        0 <= r < 4 && 0 <= c < 4 && #[trigger] sh[r][c] != 0 && !(0 <= c + x < 10 && 0 <= r + y
            < 22 && g[r + y][c + x] == 0)
}

/// True when the candidate position `(x, y)` lands the shape `sh`: some
/// occupied cell of `sh` passes the well's floor or sits on an occupied
/// well cell. Columns outside the well do not block a landing.
pub open spec fn lands(g: Seq<Seq<u32>>, sh: Seq<Seq<u32>>, x: int, y: int) -> bool {
    exists|r: int, c: int|
        0 <= r < 4 && 0 <= c < 4 && #[trigger] sh[r][c] != 0 && (r + y >= 22 || (0 <= c + x < 10
            && 0 <= r + y < 22 && g[r + y][c + x] != 0))
}

/// True when every occupied cell of `sh`, placed at `(x, y)`, falls inside
/// the well grid.
pub open spec fn shape_in_bounds(sh: Seq<Seq<u32>>, x: int, y: int) -> bool {
    forall|r: int, c: int|
        0 <= r < 4 && 0 <= c < 4 && #[trigger] sh[r][c] != 0 ==> 0 <= c + x < 10 && 0 <= r + y < 22
}

/// True when well cell `(i, j)` is covered by an occupied cell of the
/// shape `sh` placed at `(x, y)`.
pub open spec fn covers(sh: Seq<Seq<u32>>, x: int, y: int, i: int, j: int) -> bool {
    0 <= i - y < 4 && 0 <= j - x < 4 && sh[i - y][j - x] != 0
}

/// The well grid after the shape `sh` has been merged into `g` at position
/// `(x, y)`: covered cells take the shape's tag, all others keep their
/// old value.
pub open spec fn landed_grid(g: Seq<Seq<u32>>, sh: Seq<Seq<u32>>, x: int, y: int) -> Seq<
    Seq<u32>,
> {
    Seq::new(
        22,
        |i: int|
            Seq::new(
                10,
                |j: int|
                    if covers(sh, x, y, i, j) {
                        sh[i - y][j - x]
                    } else {
                        g[i][j]
                    },
            ),
    )
}

/// The rows of `g` that are not full, in order.
pub open spec fn nonfull_rows(g: Seq<Seq<u32>>) -> Seq<Seq<u32>>
    decreases g.len(),
{
    if g.len() == 0 {
        Seq::empty()
    } else if row_full(g[0]) {
        nonfull_rows(g.drop_first())
    } else {
        seq![g[0]] + nonfull_rows(g.drop_first())
    }
}

/// The well grid after all full rows of `g` have been cleared: the rows
/// that were not full sink to the bottom and as many empty rows enter at
/// the top.
pub open spec fn cleared_grid(g: Seq<Seq<u32>>) -> Seq<Seq<u32>> {
    zero_rows((22 - nonfull_rows(g).len()) as nat) + nonfull_rows(g)
}

/// There are never more rows left after a clear than there were rows.
pub proof fn lemma_nonfull_rows_len(g: Seq<Seq<u32>>)
    ensures
        nonfull_rows(g).len() <= g.len(),
    decreases g.len(),
{
    if g.len() > 0 {
        lemma_nonfull_rows_len(g.drop_first());
    }
}

/// No row that survives a clear pass is full.
pub proof fn lemma_nonfull_rows_not_full(g: Seq<Seq<u32>>)
    ensures
        forall|k: int|
            0 <= k < nonfull_rows(g).len() ==> !row_full(#[trigger] nonfull_rows(g)[k]),
    decreases g.len(),
{
    if g.len() > 0 {
        lemma_nonfull_rows_not_full(g.drop_first());
        if row_full(g[0]) {
            assert forall|k: int| 0 <= k < nonfull_rows(g).len() implies !row_full(
                #[trigger] nonfull_rows(g)[k],
            ) by {
                assert(!row_full(nonfull_rows(g.drop_first())[k]));
            }
        } else {
            assert forall|k: int| 0 <= k < nonfull_rows(g).len() implies !row_full(
                #[trigger] nonfull_rows(g)[k],
            ) by {
                if k == 0 {
                    assert(nonfull_rows(g)[0] == g[0]);
                } else {
                    assert(nonfull_rows(g)[k] == nonfull_rows(g.drop_first())[k - 1]);
                }
            }
        }
    }
}

/// Law: a clear pass leaves no full row in the well; the empty rows that
/// enter at the top are empty, and every surviving row was not full.
pub proof fn lemma_cleared_grid_no_full_rows(g: Seq<Seq<u32>>)
    requires
        g.len() == 22,
    ensures
        forall|i: int|
            0 <= i < cleared_grid(g).len() ==> !row_full(#[trigger] cleared_grid(g)[i]),
{
    lemma_nonfull_rows_len(g);
    lemma_nonfull_rows_not_full(g);
    assert forall|i: int| 0 <= i < cleared_grid(g).len() implies !row_full(
        #[trigger] cleared_grid(g)[i],
    ) by {
        let zeros = (22 - nonfull_rows(g).len()) as int;
        if i < zeros {
            assert(cleared_grid(g)[i] == zero_row());
            assert(zero_row()[0] == 0);
        } else {
            assert(cleared_grid(g)[i] == nonfull_rows(g)[i - zeros]);
        }
    }
}

/// The state of the well while the clearing loop still has the first `s`
/// rows of the starting grid `g` to examine and has cleared `count` rows
/// so far.
spec fn partial_cleared(g: Seq<Seq<u32>>, count: int, s: int) -> Seq<Seq<u32>> {
    zero_rows(count as nat) + g.subrange(0, s) + nonfull_rows(g.subrange(s, 22))
}

/// The grid cells the nested landing loop has written after it has scanned
/// the first `k` of the 16 shape cells, in row-major order.
spec fn landed_upto(g: Seq<Seq<u32>>, sh: Seq<Seq<u32>>, x: int, y: int, k: int) -> Seq<Seq<u32>> {
    Seq::new(
        22,
        |i: int|
            Seq::new(
                10,
                |j: int|
                    if covers(sh, x, y, i, j) && 4 * (i - y) + (j - x) < k {
                        sh[i - y][j - x]
                    } else {
                        g[i][j]
                    },
            ),
    )
}

impl Well {
    /// The well's contents as a mathematical grid.
    pub open spec fn grid(self) -> Seq<Seq<u32>> {
        self.data.deep_view()
    }

    /// Every cell of the well holds 0 (empty) or a colour tag 1 through 7.
    pub open spec fn wf(self) -> bool {
        forall|i: int, j: int| 0 <= i < 22 && 0 <= j < 10 ==> #[trigger] self.grid()[i][j] <= 7
    }

    /// Creates an empty well.
    pub fn new() -> (w: Well)
        ensures
            w.wf(),
            forall|i: int, j: int| 0 <= i < 22 && 0 <= j < 10 ==> #[trigger] w.grid()[i][j] == 0,
    {
        let w = Well {
            data: [
                [0, 0, 0, 0, 0, 0, 0, 0, 0, 0],
                [0, 0, 0, 0, 0, 0, 0, 0, 0, 0],
                [0, 0, 0, 0, 0, 0, 0, 0, 0, 0],
                [0, 0, 0, 0, 0, 0, 0, 0, 0, 0],
                [0, 0, 0, 0, 0, 0, 0, 0, 0, 0],
                [0, 0, 0, 0, 0, 0, 0, 0, 0, 0],
                [0, 0, 0, 0, 0, 0, 0, 0, 0, 0],
                [0, 0, 0, 0, 0, 0, 0, 0, 0, 0],
                [0, 0, 0, 0, 0, 0, 0, 0, 0, 0],
                [0, 0, 0, 0, 0, 0, 0, 0, 0, 0],
                [0, 0, 0, 0, 0, 0, 0, 0, 0, 0],
                [0, 0, 0, 0, 0, 0, 0, 0, 0, 0],
                [0, 0, 0, 0, 0, 0, 0, 0, 0, 0],
                [0, 0, 0, 0, 0, 0, 0, 0, 0, 0],
                [0, 0, 0, 0, 0, 0, 0, 0, 0, 0],
                [0, 0, 0, 0, 0, 0, 0, 0, 0, 0],
                [0, 0, 0, 0, 0, 0, 0, 0, 0, 0],
                [0, 0, 0, 0, 0, 0, 0, 0, 0, 0],
                [0, 0, 0, 0, 0, 0, 0, 0, 0, 0],
                [0, 0, 0, 0, 0, 0, 0, 0, 0, 0],
                [0, 0, 0, 0, 0, 0, 0, 0, 0, 0],
                [0, 0, 0, 0, 0, 0, 0, 0, 0, 0],
            ],
        };
        w
    }

    /// Check if a collision would occur in the well given the shape and
    /// shape's position.
    pub fn check_for_collisions(&self, shape: &PieceShape, position: &Position) -> (found: bool)
        ensures
            found == collides(
                self.grid(),
                shape.deep_view(),
                position.x as int,
                position.y as int,
            ),
    {
        let x = position.x as i64;
        let y = position.y as i64;
        let mut r: usize = 0;
        while r < 4
            invariant
                r <= 4,
                x == position.x as int,
                y == position.y as int,
                forall|i: int, j: int|
                    0 <= i < r && 0 <= j < 4 && #[trigger] shape.deep_view()[i][j] != 0 ==> (0 <= j
                        + x < 10 && 0 <= i + y < 22 && self.grid()[i + y][j + x] == 0),
            decreases 4 - r,
        {
            let mut c: usize = 0;
            while c < 4
                invariant
                    r < 4,
                    c <= 4,
                    x == position.x as int,
                    y == position.y as int,
                    forall|i: int, j: int|
                        0 <= i < r && 0 <= j < 4 && #[trigger] shape.deep_view()[i][j] != 0 ==> (0
                            <= j + x < 10 && 0 <= i + y < 22 && self.grid()[i + y][j + x] == 0),
                    forall|j: int|
                        0 <= j < c && #[trigger] shape.deep_view()[r as int][j] != 0 ==> (0 <= j + x
                            < 10 && 0 <= r + y < 22 && self.grid()[r + y][j + x] == 0),
                decreases 4 - c,
            {
                if shape[r][c] != 0 {
                    let cx = c as i64 + x;
                    let ry = r as i64 + y;
                    if cx < 0 || cx >= 10 || ry < 0 || ry >= 22 {
                        assert(shape.deep_view()[r as int][c as int] != 0);
                        return true;
                    }
                    if self.data[ry as usize][cx as usize] != 0 {
                        assert(shape.deep_view()[r as int][c as int] != 0);
                        return true;
                    }
                }
                c = c + 1;
            }
            r = r + 1;
        }
        false
    }

    /// Check if a landing would occur given the shape and the shape's
    /// position.
    pub fn check_for_landing(&self, shape: &PieceShape, position: &Position) -> (found: bool)
        ensures
            found == lands(self.grid(), shape.deep_view(), position.x as int, position.y as int),
    {
        let x = position.x as i64;
        let y = position.y as i64;
        let mut r: usize = 0;
        while r < 4
            invariant
                r <= 4,
                x == position.x as int,
                y == position.y as int,
                forall|i: int, j: int|
                    0 <= i < r && 0 <= j < 4 && #[trigger] shape.deep_view()[i][j] != 0 ==> (i + y
                        < 22 && !(0 <= j + x < 10 && 0 <= i + y < 22 && self.grid()[i + y][j + x]
                        != 0)),
            decreases 4 - r,
        {
            let mut c: usize = 0;
            while c < 4
                invariant
                    r < 4,
                    c <= 4,
                    x == position.x as int,
                    y == position.y as int,
                    forall|i: int, j: int|
                        0 <= i < r && 0 <= j < 4 && #[trigger] shape.deep_view()[i][j] != 0 ==> (i
                            + y < 22 && !(0 <= j + x < 10 && 0 <= i + y < 22 && self.grid()[i + y][j
                            + x] != 0)),
                    forall|j: int|
                        0 <= j < c && #[trigger] shape.deep_view()[r as int][j] != 0 ==> (r + y < 22
                            && !(0 <= j + x < 10 && 0 <= r + y < 22 && self.grid()[r + y][j + x]
                            != 0)),
                decreases 4 - c,
            {
                if shape[r][c] != 0 {
                    let cx = c as i64 + x;
                    let ry = r as i64 + y;
                    if ry >= 22 {
                        assert(shape.deep_view()[r as int][c as int] != 0);
                        return true;
                    }
                    if 0 <= cx && cx < 10 && 0 <= ry && self.data[ry as usize][cx as usize] != 0 {
                        assert(shape.deep_view()[r as int][c as int] != 0);
                        return true;
                    }
                }
                c = c + 1;
            }
            r = r + 1;
        }
        false
    }

    /// Adds the current piece, `current_t`, to the well.
    pub fn land(&mut self, current_t: &Piece)
        requires
            old(self).wf(),
            current_t.wf(),
            shape_in_bounds(
                current_t.grid(),
                current_t.top_left.x as int,
                current_t.top_left.y as int,
            ),
        ensures
            final(self).wf(),
            final(self).grid() == landed_grid(
                old(self).grid(),
                current_t.grid(),
                current_t.top_left.x as int,
                current_t.top_left.y as int,
            ),
    {
        let current_shape = current_t.get_shape();
        let ghost g0 = self.grid();
        let ghost sh = current_t.grid();
        let ghost x = current_t.top_left.x as int;
        let ghost y = current_t.top_left.y as int;
        proof {
            lemma_spec_shape_ok(current_t.kind(), current_t.rotation() as int);
            assert(self.grid() =~~= landed_upto(g0, sh, x, y, 0));
        }

        let mut r: usize = 0;
        while r < 4
            invariant
                r <= 4,
                current_shape.deep_view() == sh,
                shape_ok(current_t.kind(), sh),
                x == current_t.top_left.x as int,
                y == current_t.top_left.y as int,
                shape_in_bounds(sh, x, y),
                forall|i: int, j: int| 0 <= i < 22 && 0 <= j < 10 ==> #[trigger] g0[i][j] <= 7,
                self.grid() == landed_upto(g0, sh, x, y, 4 * r),
            decreases 4 - r,
        {
            let mut c: usize = 0;
            while c < 4
                invariant
                    r < 4,
                    c <= 4,
                    current_shape.deep_view() == sh,
                    shape_ok(current_t.kind(), sh),
                    x == current_t.top_left.x as int,
                    y == current_t.top_left.y as int,
                    shape_in_bounds(sh, x, y),
                    forall|i: int, j: int| 0 <= i < 22 && 0 <= j < 10 ==> #[trigger] g0[i][j]
                        <= 7,
                    self.grid() == landed_upto(g0, sh, x, y, 4 * r + c),
                decreases 4 - c,
            {
                let ghost k = 4 * r as int + c as int;
                if current_shape[r][c] != 0 {
                    proof {
                        assert(sh[r as int][c as int] != 0);
                        assert(0 <= c + x < 10 && 0 <= r + y < 22);
                    }
                    let iy = (r as i32 + current_t.top_left.y) as usize;
                    let jx = (c as i32 + current_t.top_left.x) as usize;
                    let ghost pre = self.grid();
                    let mut well_row = self.data[iy];
                    well_row[jx] = current_shape[r][c];
                    self.data[iy] = well_row;
                    proof {
                        assert forall|i: int, j: int| 0 <= i < 22 && 0 <= j < 10 implies
                            self.grid()[i][j] == landed_upto(g0, sh, x, y, k + 1)[i][j] by {
                            if i == r + y && j == c + x {
                                assert(self.grid()[i][j] == sh[r as int][c as int]);
                            } else {
                                assert(self.grid()[i][j] == pre[i][j]);
                                assert(pre[i][j] == landed_upto(g0, sh, x, y, k)[i][j]);
                            }
                        }
                        assert(self.grid() =~~= landed_upto(g0, sh, x, y, k + 1));
                    }
                } else {
                    proof {
                        assert forall|i: int, j: int| 0 <= i < 22 && 0 <= j < 10 implies
                            landed_upto(g0, sh, x, y, k)[i][j] == landed_upto(
                                g0,
                                sh,
                                x,
                                y,
                                k + 1,
                            )[i][j] by {}
                        assert(self.grid() =~~= landed_upto(g0, sh, x, y, k + 1));
                    }
                }
                c = c + 1;
            }
            r = r + 1;
        }
        proof {
            assert forall|i: int, j: int| 0 <= i < 22 && 0 <= j < 10 implies
                self.grid()[i][j] == landed_grid(g0, sh, x, y)[i][j] by {}
            assert(self.grid() =~~= landed_grid(g0, sh, x, y));
            assert forall|i: int, j: int| 0 <= i < 22 && 0 <= j < 10 implies #[trigger] self.grid()[i][j]
                <= 7 by {
                if covers(sh, x, y, i, j) {
                    assert(sh[i - y][j - x] == piece_tag(current_t.kind()));
                }
            }
        }
    }

    /// True when row `r` of the well is completely filled.
    pub fn row_is_full(&self, r: usize) -> (full: bool)
        requires
            r < 22,
        ensures
            full == row_full(self.grid()[r as int]),
    {
        let mut j: usize = 0;
        while j < 10
            invariant
                r < 22,
                j <= 10,
                forall|k: int| 0 <= k < j ==> #[trigger] self.grid()[r as int][k] != 0,
            decreases 10 - j,
        {
            if self.data[r][j] == 0 {
                assert(self.grid()[r as int][j as int] == 0);
                return false;
            }
            j = j + 1;
        }
        true
    }

    /// Perform a line clear using the 'naive' algorithm. Starting at the
    /// line to be cleared, pull the content of the row above down to the
    /// current row. If we are at row 0 (the top row), simply clear out that
    /// row.
    pub fn naive_line_clear(&mut self, starting_row: usize)
        requires
            starting_row < 22,
        ensures
            final(self).grid()[0] == zero_row(),
            forall|i: int|
                1 <= i <= starting_row ==> #[trigger] final(self).grid()[i] == old(self).grid()[i
                    - 1],
            forall|i: int|
                starting_row < i < 22 ==> #[trigger] final(self).grid()[i] == old(self).grid()[i],
            old(self).wf() ==> final(self).wf(),
    {
        let ghost g0 = self.grid();
        let mut row: usize = starting_row;
        while row != 0
            invariant
                row <= starting_row < 22,
                forall|i: int| 0 <= i <= row ==> #[trigger] self.grid()[i] == g0[i],
                forall|i: int| row < i <= starting_row ==> #[trigger] self.grid()[i] == g0[i - 1],
                forall|i: int| starting_row < i < 22 ==> #[trigger] self.grid()[i] == g0[i],
            decreases row,
        {
            let ghost prev = self.grid();
            let above = self.data[row - 1];
            self.data[row] = above;
            proof {
                assert(self.grid()[row as int] =~= prev[row - 1]);
                assert forall|i: int| 0 <= i < 22 && i != row implies #[trigger] self.grid()[i]
                    =~= prev[i] by {}
            }
            row = row - 1;
        }
        let ghost prev = self.grid();
        self.data[0] = [0, 0, 0, 0, 0, 0, 0, 0, 0, 0];
        proof {
            assert(self.grid()[0] =~= zero_row());
            assert forall|i: int| 1 <= i < 22 implies #[trigger] self.grid()[i] =~= prev[i] by {}
            if old(self).wf() {
                assert forall|i: int, j: int| 0 <= i < 22 && 0 <= j < 10 implies #[trigger] self.grid()[i][j]
                    <= 7 by {
                    if 1 <= i <= starting_row {
                        assert(old(self).grid()[i - 1][j] <= 7);
                    } else if i > starting_row {
                        assert(old(self).grid()[i][j] <= 7);
                    }
                }
            }
        }
    }

    /// Scan the well for full rows, clear each of them, and return how many
    /// were cleared. The rows that were not full sink to the bottom of the
    /// well and empty rows take their place at the top.
    pub fn clear_lines(&mut self) -> (cleared: u32)
        requires
            old(self).wf(),
        ensures
            final(self).wf(),
            final(self).grid() == cleared_grid(old(self).grid()),
            cleared == 22 - nonfull_rows(old(self).grid()).len(),
    {
        let ghost g0 = self.grid();
        let mut r: usize = 21;
        let mut count: usize = 0;
        proof {
            assert(g0.subrange(22, 22) =~= Seq::<Seq<u32>>::empty());
            assert(self.grid() =~~= partial_cleared(g0, 0, 22));
        }
        loop
            invariant
                self.wf(),
                r < 22,
                count <= r + 1,
                g0.len() == 22,
                forall|i: int| 0 <= i < 22 ==> (#[trigger] g0[i]).len() == 10,
                forall|i: int, j: int| 0 <= i < 22 && 0 <= j < 10 ==> #[trigger] g0[i][j] <= 7,
                nonfull_rows(g0.subrange(r + 1 - count, 22)).len() == 21 - r,
                self.grid() == partial_cleared(g0, count as int, r + 1 - count),
            ensures
                count == 22 - nonfull_rows(g0).len(),
                self.grid() == cleared_grid(g0),
            decreases 2 * r + 1 - count,
        {
            let ghost pre = self.grid();
            let ghost s = r + 1 - count;
            if self.row_is_full(r) {
                proof {
                    if r + 1 == count {
                        assert(pre[r as int] == zero_row());
                        assert(pre[r as int][0] == 0);
                        assert(false);
                    }
                    assert(pre[r as int] == g0[s - 1]);
                }
                self.naive_line_clear(r);
                count = count + 1;
                proof {
                    assert(g0.subrange(s - 1, 22).drop_first() =~= g0.subrange(s, 22));
                    assert(row_full(g0.subrange(s - 1, 22)[0]));
                    assert(nonfull_rows(g0.subrange(s - 1, 22)) == nonfull_rows(
                        g0.subrange(s, 22),
                    ));
                    assert(self.grid() =~~= partial_cleared(g0, count as int, s - 1));
                }
            } else {
                proof {
                    if r + 1 > count {
                        assert(pre[r as int] == g0[s - 1]);
                        assert(g0.subrange(s - 1, 22).drop_first() =~= g0.subrange(s, 22));
                        assert(!row_full(g0.subrange(s - 1, 22)[0]));
                        assert(nonfull_rows(g0.subrange(s - 1, 22)) == seq![g0[s - 1]]
                            + nonfull_rows(g0.subrange(s, 22)));
                    }
                }
                if r == 0 || r + 1 == count {
                    proof {
                        if r + 1 == count {
                            assert(g0.subrange(0, 22) =~= g0);
                            assert(self.grid() =~~= cleared_grid(g0));
                        } else {
                            // r == 0 and count <= r, so count == 0: every row
                            // of the starting grid survives.
                            assert(g0.subrange(s - 1, 22) =~= g0);
                            assert(g0.drop_first() =~= g0.subrange(1, 22));
                            assert(nonfull_rows(g0).len() == 22);
                            assert(self.grid() =~~= cleared_grid(g0));
                        }
                    }
                    break ;
                }
                proof {
                    assert(self.grid() =~~= partial_cleared(g0, count as int, s - 1));
                }
                r = r - 1;
            }
        }
        count as u32
    }
}

} // verus!
