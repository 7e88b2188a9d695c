use vstd::prelude::*;

use crate::game_interface::Tile;

verus! {

/// Mathematical picture of a board: its dimensions, the winning line length
/// and the cells in row-major order (`y * width + x`).
pub struct BoardView {
    pub width: int,
    pub height: int,
    pub goal: int,
    pub cells: Seq<Tile>,
}

/// Column of the `i`-th cell of a line starting at column `x` in direction `d`.
/// The four directions are (-1, 0), (-1, 1), (0, -1) and (-1, -1).
pub open spec fn line_x(d: int, x: int, i: int) -> int {
    if d == 2 { x } else { x - i }
}

/// Row of the `i`-th cell of a line starting at row `y` in direction `d`.
pub open spec fn line_y(d: int, y: int, i: int) -> int {
    if d == 0 { y } else if d == 1 { y + i } else { y - i }
}

/// `(x0, y0)` comes before `(x, y)` in row-major order.
pub open spec fn before(x0: int, y0: int, x: int, y: int) -> bool {
    y0 < y || (y0 == y && x0 < x)
}

impl BoardView {
    pub open spec fn wf(self) -> bool {
        &&& self.width >= 1
        &&& self.height >= 1
        &&& self.goal >= 1
        &&& self.cells.len() == self.width * self.height
    }

    pub open spec fn in_bounds(self, x: int, y: int) -> bool {
        0 <= x < self.width && 0 <= y < self.height
    }

    pub open spec fn cell(self, x: int, y: int) -> Tile {
        self.cells[y * self.width + x]
    }

    pub open spec fn line_cell(self, x: int, y: int, d: int, i: int) -> Tile {
        self.cell(line_x(d, x, i), line_y(d, y, i))
    }

    /// The far end of a line of `goal` cells from `(x, y)` in direction `d` lies on the board.
    pub open spec fn fits(self, x: int, y: int, d: int) -> bool {
        self.in_bounds(line_x(d, x, self.goal - 1), line_y(d, y, self.goal - 1))
    }

    /// A full line of `goal` cells from the occupied cell `(x, y)` in direction `d`
    /// all hold the player of `(x, y)`.
    pub open spec fn line_at(self, x: int, y: int, d: int) -> bool {
        &&& self.cell(x, y) is Player
        &&& self.fits(x, y, d)
        &&& forall|i: int| 0 <= i < self.goal ==> #[trigger] self.line_cell(x, y, d, i) == self.cell(x, y)
    }

    /// Some winning line starts at `(x, y)`.
    pub open spec fn wins_from(self, x: int, y: int) -> bool {
        self.line_at(x, y, 0) || self.line_at(x, y, 1) || self.line_at(x, y, 2) || self.line_at(x, y, 3)
    }

    /// `(x, y)` is the first cell in row-major order where a winning line starts.
    pub open spec fn is_first_win(self, x: int, y: int) -> bool {
        &&& self.in_bounds(x, y)
        &&& self.wins_from(x, y)
        &&& forall|x0: int, y0: int|
            self.in_bounds(x0, y0) && before(x0, y0, x, y) ==> !#[trigger] self.wins_from(x0, y0)
    }

    pub open spec fn some_win(self) -> bool {
        exists|x: int, y: int| self.in_bounds(x, y) && #[trigger] self.wins_from(x, y)
    }

    pub open spec fn has_empty(self) -> bool {
        exists|x: int, y: int| self.in_bounds(x, y) && #[trigger] self.cell(x, y) == Tile::Empty
    }

    /// `s` is what a full scan of this board reports.
    pub open spec fn status_ok(self, s: BoardStatus) -> bool {
        match s {
            BoardStatus::Won(p) => exists|x: int, y: int|
                #[trigger] self.is_first_win(x, y) && self.cell(x, y) == Tile::Player(p),
            BoardStatus::Open => !self.some_win() && self.has_empty(),
            BoardStatus::Full => !self.some_win() && !self.has_empty(),
        }
    }
}

/// Result of scanning a board for a winning line.
#[derive(Clone, Copy, Debug, PartialEq, Eq, Structural)]
pub enum BoardStatus {
    /// The first winning line found belongs to this player.
    Won(usize),
    /// No winning line, and an empty cell remains.
    Open,
    /// No winning line, and every cell is occupied.
    Full,
}

pub proof fn lemma_index_in_bounds(x: int, y: int, w: int, h: int)
    requires
        0 <= x < w,
        0 <= y < h,
    ensures
        0 <= y * w + x < w * h,
{
    assert(0 <= y * w) by (nonlinear_arith)
        requires 0 <= y, 0 <= w;
    assert(y * w + x < w * h) by (nonlinear_arith)
        requires 0 <= x < w, 0 <= y < h;
}

/// A rectangular grid of tiles with the length of a winning line.
pub struct Board {
    width: usize,
    height: usize,
    goal: usize,
    cells: Vec<Tile>,
}

impl View for Board {
    type V = BoardView;

    closed spec fn view(&self) -> BoardView {
        BoardView {
            width: self.width as int,
            height: self.height as int,
            goal: self.goal as int,
            cells: self.cells@,
        }
    }
}

impl Board {
    pub open spec fn wf(&self) -> bool {
        self@.wf()
    }

    /// An empty board.
    pub fn new(width: usize, height: usize, goal: usize) -> (b: Board)
        requires
            width >= 1,
            height >= 1,
            goal >= 1,
            width * height <= usize::MAX,
        ensures
            b.wf(),
            b@.width == width,
            b@.height == height,
            b@.goal == goal,
            forall|k: int| 0 <= k < b@.cells.len() ==> b@.cells[k] == Tile::Empty,
    {
        let n: usize = width * height;
        let mut cells: Vec<Tile> = Vec::with_capacity(n);
        let mut i: usize = 0;
        while i < n
            invariant
                i <= n,
                cells@.len() == i,
                forall|k: int| 0 <= k < i ==> cells@[k] == Tile::Empty,
            decreases n - i,
        {
            cells.push(Tile::Empty);
            i += 1;
        }
        Board { width, height, goal, cells }
    }

    pub fn width(&self) -> (r: usize)
        ensures r == self@.width,
    {
        self.width
    }

    pub fn height(&self) -> (r: usize)
        ensures r == self@.height,
    {
        self.height
    }

    pub fn goal(&self) -> (r: usize)
        ensures r == self@.goal,
    {
        self.goal
    }

    /// The tile at `(x, y)`, or `None` off the board.
    pub fn get(&self, x: usize, y: usize) -> (r: Option<&Tile>)
        requires
            self.wf(),
        ensures
            match r {
                Some(t) => self@.in_bounds(x as int, y as int) && *t == self@.cell(x as int, y as int),
                None => !self@.in_bounds(x as int, y as int),
            },
    {
        if x >= self.width || y >= self.height {
            None
        } else {
            let n: usize = self.cells.len();
            proof { lemma_index_in_bounds(x as int, y as int, self.width as int, self.height as int); }
            assert(y * self.width + x < n);
            Some(&self.cells[y * self.width + x])
        }
    }

    /// Writes `t` into the cell `(x, y)`.
    pub fn set(&mut self, x: usize, y: usize, t: Tile)
        requires
            old(self).wf(),
            old(self)@.in_bounds(x as int, y as int),
        ensures
            final(self).wf(),
            final(self)@ == (BoardView {
                cells: old(self)@.cells.update(y * old(self)@.width + x, t),
                ..old(self)@
            }),
    {
        let n: usize = self.cells.len();
        proof { lemma_index_in_bounds(x as int, y as int, self.width as int, self.height as int); }
        assert(y * self.width + x < n);
        let k: usize = y * self.width + x;
        self.cells.set(k, t);
    }

    /// Whether a full line of `goal` cells from `(x, y)` in direction `d`
    /// belongs to `p`, the player at `(x, y)`.
    fn line_from(&self, x: usize, y: usize, d: usize, p: usize) -> (r: bool)
        requires
            self.wf(),
            self@.in_bounds(x as int, y as int),
            d < 4,
            self@.cell(x as int, y as int) == Tile::Player(p),
        ensures
            r == self@.line_at(x as int, y as int, d as int),
    {
        let reach: usize = self.goal - 1;
        let fits = match d {
            0 => x >= reach,
            1 => x >= reach && reach < self.height - y,
            2 => y >= reach,
            _ => x >= reach && y >= reach,
        };
        if !fits {
            return false;
        }
        let n: usize = self.cells.len();
        let mut i: usize = 0;
        while i < self.goal
            invariant
                self.wf(),
                n == self@.cells.len(),
                self@.in_bounds(x as int, y as int),
                self@.fits(x as int, y as int, d as int),
                d < 4,
                self@.cell(x as int, y as int) == Tile::Player(p),
                i <= self.goal,
                forall|j: int| 0 <= j < i ==> #[trigger] self@.line_cell(x as int, y as int, d as int, j)
                    == Tile::Player(p),
            decreases self.goal - i,
        {
            let tx: usize = if d == 2 { x } else { x - i };
            let ty: usize = if d == 0 { y } else if d == 1 { y + i } else { y - i };
            proof {
                lemma_index_in_bounds(tx as int, ty as int, self.width as int, self.height as int);
            }
            assert(ty * self.width + tx < n);
            let k: usize = ty * self.width + tx;
            assert(self@.line_cell(x as int, y as int, d as int, i as int) == self@.cells[k as int]);
            match self.cells[k] {
                Tile::Player(q) => {
                    if q != p {
                        return false;
                    }
                },
                Tile::Empty => {
                    return false;
                },
            }
            i += 1;
        }
        true
    }

    /// Whether a winning line starts at the occupied cell `(x, y)`.
    fn wins_from(&self, x: usize, y: usize, p: usize) -> (r: bool)
        requires
            self.wf(),
            self@.in_bounds(x as int, y as int),
            self@.cell(x as int, y as int) == Tile::Player(p),
        ensures
            r == self@.wins_from(x as int, y as int),
    {
        self.line_from(x, y, 0, p) || self.line_from(x, y, 1, p) || self.line_from(x, y, 2, p)
            || self.line_from(x, y, 3, p)
    }

    /// Scans every cell in row-major order and reports the player of the first
    /// winning line, or whether an empty cell remains.
    pub fn status(&self) -> (r: BoardStatus)
        requires
            self.wf(),
        ensures
            self@.status_ok(r),
    {
        let n: usize = self.cells.len();
        let mut move_possible = false;
        let mut y: usize = 0;
        while y < self.height
            invariant
                self.wf(),
                n == self@.cells.len(),
                y <= self.height,
                forall|x0: int, y0: int|
                    self@.in_bounds(x0, y0) && y0 < y ==> !#[trigger] self@.wins_from(x0, y0),
                move_possible <==> exists|x0: int, y0: int|
                    self@.in_bounds(x0, y0) && y0 < y && #[trigger] self@.cell(x0, y0) == Tile::Empty,
            decreases self.height - y,
        {
            let mut x: usize = 0;
            while x < self.width
                invariant
                    self.wf(),
                    n == self@.cells.len(),
                    y < self.height,
                    x <= self.width,
                    forall|x0: int, y0: int|
                        self@.in_bounds(x0, y0) && before(x0, y0, x as int, y as int)
                            ==> !#[trigger] self@.wins_from(x0, y0),
                    move_possible <==> exists|x0: int, y0: int|
                        self@.in_bounds(x0, y0) && before(x0, y0, x as int, y as int)
                            && #[trigger] self@.cell(x0, y0) == Tile::Empty,
                decreases self.width - x,
            {
                proof {
                    lemma_index_in_bounds(x as int, y as int, self.width as int, self.height as int);
                }
                let k: usize = y * self.width + x;
                assert(self@.cell(x as int, y as int) == self@.cells[k as int]);
                match self.cells[k] {
                    Tile::Player(p) => {
                        if self.wins_from(x, y, p) {
                            assert(self@.is_first_win(x as int, y as int));
                            return BoardStatus::Won(p);
                        }
                    },
                    Tile::Empty => {
                        move_possible = true;
                    },
                }
                x += 1;
            }
            y += 1;
        }
        if move_possible {
            BoardStatus::Open
        } else {
            BoardStatus::Full
        }
    }
}

} // verus!
