//! The playing field: a fixed-size grid of cells, each empty or owned by
//! the player that marked it, with move validation and the win condition.
//!
//! A cell, once marked, is never written again: `mark` demands an empty
//! target, so occupancy is stable by construction.  The win condition is
//! the explicit rule of this variant: a move wins when it completes a
//! line of `WIN_LEN` cells owned by the same player, horizontally,
//! vertically, or along either diagonal, through the cell just marked.

use vstd::prelude::*;

verus! {

/// Number of rows on the board.
pub const HEIGHT: usize = 10;

/// Number of columns on the board.
pub const WIDTH: usize = 10;

/// A move wins when it completes a straight line of this many cells
/// owned by one player.
pub const WIN_LEN: usize = 5;

/// The cell value that means "no player owns this cell".
pub const EMPTY_CELL: i32 = -1;

/// Whether `(x, y)` is a coordinate of some cell of the board.
pub open spec fn on_board(x: int, y: int) -> bool {
    0 <= x < HEIGHT && 0 <= y < WIDTH
}

/// Well-formedness of a board value: a full HEIGHT x WIDTH grid.
pub open spec fn board_wf(bv: Seq<Seq<i32>>) -> bool {
    bv.len() == HEIGHT && forall|i: int| 0 <= i < HEIGHT ==> (#[trigger] bv[i]).len() == WIDTH
}

/// Whether a move onto `(x, y)` is legal: on the board and onto an
/// empty cell.
pub open spec fn move_ok(bv: Seq<Seq<i32>>, x: int, y: int) -> bool {
    on_board(x, y) && bv[x][y] == EMPTY_CELL
}

/// The board after player `id` marks `(x, y)`; every other cell is kept.
pub open spec fn board_update(bv: Seq<Seq<i32>>, x: int, y: int, id: i32) -> Seq<Seq<i32>> {
    bv.update(x, bv[x].update(y, id))
}

/// Row coordinate of the `j`-th cell of a WIN_LEN-cell line along
/// direction `d` whose `k`-th cell is row `x`.  The four directions are
/// 0: east, 1: south, 2: south-east, 3: north-east.
pub open spec fn line_x(x: int, d: int, k: int, j: int) -> int {
    if d == 0 {
        x
    } else if d == 3 {
        x - (j - k)
    } else {
        x + (j - k)
    }
}

/// Column coordinate of the `j`-th cell of the same line.
pub open spec fn line_y(y: int, d: int, k: int, j: int) -> int {
    if d == 1 {
        y
    } else {
        y + (j - k)
    }
}

/// Whether the WIN_LEN-cell line along direction `d` whose `k`-th cell
/// is `(x, y)` lies on the board and is wholly owned by player `id`.
pub open spec fn line_through(bv: Seq<Seq<i32>>, x: int, y: int, d: int, k: int, id: i32) -> bool {
    forall|j: int|
        0 <= j < WIN_LEN ==> {
            &&& on_board(#[trigger] line_x(x, d, k, j), line_y(y, d, k, j))
            &&& bv[line_x(x, d, k, j)][line_y(y, d, k, j)] == id
        }
}

/// The win condition: some line of WIN_LEN cells through `(x, y)` is
/// wholly owned by player `id`.
pub open spec fn wins(bv: Seq<Seq<i32>>, x: int, y: int, id: i32) -> bool {
    exists|d: int, k: int|
        0 <= d < 4 && 0 <= k < WIN_LEN && #[trigger] line_through(bv, x, y, d, k, id)
}

/// The grid of cells.  `board[x][y]` is EMPTY_CELL or the id of the
/// player that marked the cell.
pub struct ChessBoard {
    pub board: Vec<Vec<i32>>,
}

impl View for ChessBoard {
    type V = Seq<Seq<i32>>;

    open spec fn view(&self) -> Seq<Seq<i32>> {
        Seq::new(self.board@.len(), |i: int| self.board@[i]@)
    }
}

impl ChessBoard {
    /// Well-formedness: the grid has exactly HEIGHT rows of WIDTH cells.
    pub open spec fn wf(&self) -> bool {
        board_wf(self@)
    }

    /// A fresh board with every cell empty.
    pub fn new() -> (b: ChessBoard)
        ensures
            b.wf(),
            forall|i: int, j: int| on_board(i, j) ==> #[trigger] b@[i][j] == EMPTY_CELL,
    {
        let mut rows: Vec<Vec<i32>> = Vec::new();
        while rows.len() < HEIGHT
            invariant
                rows@.len() <= HEIGHT,
                forall|i: int|
                    0 <= i < rows@.len() ==> {
                        &&& (#[trigger] rows@[i])@.len() == WIDTH
                        &&& forall|j: int| 0 <= j < WIDTH ==> rows@[i]@[j] == EMPTY_CELL
                    },
            decreases HEIGHT - rows.len(),
        {
            let mut row: Vec<i32> = Vec::new();
            while row.len() < WIDTH
                invariant
                    row@.len() <= WIDTH,
                    forall|j: int| 0 <= j < row@.len() ==> row@[j] == EMPTY_CELL,
                decreases WIDTH - row.len(),
            {
                row.push(EMPTY_CELL);
            }
            rows.push(row);
        }
        ChessBoard { board: rows }
    }

    /// The owner of cell `(x, y)` (EMPTY_CELL when unowned).
    pub fn cell(&self, x: usize, y: usize) -> (c: i32)
        requires
            self.wf(),
            x < HEIGHT,
            y < WIDTH,
        ensures
            c == self@[x as int][y as int],
    {
        proof {
            assert(self@.len() == self.board@.len());
            assert(self@[x as int] == self.board@[x as int]@);
        }
        self.board[x][y]
    }

    /// Whether a move onto `(x, y)` is legal on this board.
    pub fn valid(&self, x: usize, y: usize) -> (r: bool)
        requires
            self.wf(),
        ensures
            r == move_ok(self@, x as int, y as int),
    {
        if x >= HEIGHT || y >= WIDTH {
            return false;
        }
        self.cell(x, y) == EMPTY_CELL
    }

    /// Marks the empty cell `(x, y)` as owned by player `id`.  Exactly
    /// that cell changes; every cell already owned keeps its owner.
    pub fn mark(&mut self, x: usize, y: usize, id: i32)
        requires
            old(self).wf(),
            move_ok(old(self)@, x as int, y as int),
        ensures
            final(self).wf(),
            final(self)@ == board_update(old(self)@, x as int, y as int, id),
    {
        proof {
            assert(self@.len() == self.board@.len());
            assert(self@[x as int] == self.board@[x as int]@);
        }
        let row: &mut Vec<i32> = &mut self.board[x];
        row[y] = id;
        assert(final(self)@ =~= board_update(old(self)@, x as int, y as int, id)) by {
            assert(forall|i: int|
                0 <= i < HEIGHT ==> final(self)@[i] == #[trigger] final(self).board@[i]@);
        }
    }

    /// Whether the line along `d` whose `k`-th cell is `(x, y)` is
    /// wholly on the board and owned by `id`.
    fn line_hit(&self, x: usize, y: usize, d: usize, k: usize, id: i32) -> (r: bool)
        requires
            self.wf(),
            x < HEIGHT,
            y < WIDTH,
            d < 4,
            k < WIN_LEN,
        ensures
            r == line_through(self@, x as int, y as int, d as int, k as int, id),
    {
        let mut j: usize = 0;
        while j < WIN_LEN
            invariant
                self.wf(),
                x < HEIGHT,
                y < WIDTH,
                d < 4,
                k < WIN_LEN,
                j <= WIN_LEN,
                forall|jj: int|
                    0 <= jj < j ==> {
                        &&& on_board(#[trigger] line_x(x as int, d as int, k as int, jj),
                            line_y(y as int, d as int, k as int, jj))
                        &&& self@[line_x(x as int, d as int, k as int, jj)][line_y(
                            y as int, d as int, k as int, jj)] == id
                    },
            decreases WIN_LEN - j,
        {
            let t: i64 = j as i64 - k as i64;
            let cx: i64 = if d == 0 {
                x as i64
            } else if d == 3 {
                x as i64 - t
            } else {
                x as i64 + t
            };
            let cy: i64 = if d == 1 {
                y as i64
            } else {
                y as i64 + t
            };
            assert(cx == line_x(x as int, d as int, k as int, j as int));
            assert(cy == line_y(y as int, d as int, k as int, j as int));
            if cx < 0 || cx >= HEIGHT as i64 || cy < 0 || cy >= WIDTH as i64 {
                return false;
            }
            if self.cell(cx as usize, cy as usize) != id {
                return false;
            }
            j = j + 1;
        }
        true
    }

    /// Evaluates the win condition for player `id` after a move onto
    /// `(x, y)`: true exactly when some WIN_LEN-cell line through that
    /// cell is wholly owned by `id`.
    pub fn check_win(&self, x: usize, y: usize, id: i32) -> (r: bool)
        requires
            self.wf(),
            x < HEIGHT,
            y < WIDTH,
        ensures
            r == wins(self@, x as int, y as int, id),
    {
        let mut d: usize = 0;
        while d < 4
            invariant
                self.wf(),
                x < HEIGHT,
                y < WIDTH,
                d <= 4,
                forall|dd: int, kk: int|
                    0 <= dd < d && 0 <= kk < WIN_LEN ==> !#[trigger] line_through(
                        self@, x as int, y as int, dd, kk, id),
            decreases 4 - d,
        {
            let mut k: usize = 0;
            while k < WIN_LEN
                invariant
                    self.wf(),
                    x < HEIGHT,
                    y < WIDTH,
                    d < 4,
                    k <= WIN_LEN,
                    forall|dd: int, kk: int|
                        0 <= dd < d && 0 <= kk < WIN_LEN ==> !#[trigger] line_through(
                            self@, x as int, y as int, dd, kk, id),
                    forall|kk: int|
                        0 <= kk < k ==> !#[trigger] line_through(
                            self@, x as int, y as int, d as int, kk, id),
                decreases WIN_LEN - k,
            {
                if self.line_hit(x, y, d, k, id) {
                    return true;
                }
                k = k + 1;
            }
            d = d + 1;
        }
        false
    }
}

} // verus!
