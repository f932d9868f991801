//! The mathematical board: what a `Board` holds, and what one generation does
//! to it. Everything here is specification; the executable board lives in
//! `board`.

use vstd::prelude::*;
use crate::cell::Cell;
use crate::position::Position;

verus! {

/// A rectangle of squares on a torus. `rows[r][c]` is the square in row `r`
/// (from the top) and column `c` (from the left).
#[verifier::ext_equal]
pub struct Grid {
    pub width: nat,
    pub height: nat,
    pub rows: Seq<Seq<Cell>>,
}

/// Whether `squares` names the square in row `row` and column `column`.
pub open spec fn listed(squares: Seq<Position>, row: int, column: int) -> bool {
    exists|i: int| 0 <= i < squares.len() && (#[trigger] squares[i]).row == row && squares[i].column == column
}

impl Grid {
    /// Both dimensions are positive and every row has `width` squares.
    pub open spec fn wf(self) -> bool {
        &&& self.width > 0
        &&& self.height > 0
        &&& self.rows.len() == self.height
        &&& forall|r: int| 0 <= r < self.height ==> (#[trigger] self.rows[r]).len() == self.width
    }

    /// Whether `(row, column)` names a square without wrapping.
    pub open spec fn contains(self, row: int, column: int) -> bool {
        0 <= row < self.height && 0 <= column < self.width
    }

    /// The square that `(row, column)` names once both coordinates are
    /// wrapped around the edges.
    pub open spec fn at(self, row: int, column: int) -> Cell {
        self.rows[row % (self.height as int)][column % (self.width as int)]
    }

    /// Whether the square at `(row, column)`, wrapped, is alive.
    pub open spec fn alive(self, row: int, column: int) -> bool {
        self.at(row, column) == Cell::Alive
    }

    /// One if the square at `(row, column)`, wrapped, is alive, else zero.
    pub open spec fn live(self, row: int, column: int) -> nat {
        if self.alive(row, column) {
            1
        } else {
            0
        }
    }

    /// The number of live squares among the eight neighbours of
    /// `(row, column)`. Each of the eight offsets is wrapped on its own, so
    /// on a board fewer than three squares wide or high one square can be
    /// reached, and counted, through several offsets.
    pub open spec fn live_neighbors(self, row: int, column: int) -> nat {
        self.live(row - 1, column - 1) + self.live(row - 1, column) + self.live(row - 1, column + 1)
            + self.live(row, column - 1) + self.live(row, column + 1)
            + self.live(row + 1, column - 1) + self.live(row + 1, column) + self.live(row + 1, column + 1)
    }

    /// The board one generation later: every square is replaced by its
    /// `next_state`, all of them computed from this board.
    pub open spec fn next_generation(self) -> Grid {
        Grid {
            width: self.width,
            height: self.height,
            rows: Seq::new(
                self.height,
                |r: int| Seq::new(
                    self.width,
                    |c: int| self.rows[r][c].next_state(self.live_neighbors(r, c)),
                ),
            ),
        }
    }

    /// The board after `generations` generations.
    pub open spec fn after(self, generations: nat) -> Grid
        decreases generations,
    {
        if generations == 0 {
            self
        } else {
            self.after((generations - 1) as nat).next_generation()
        }
    }

    /// The board with the square at `(row, column)` replaced by `cell`.
    pub open spec fn with_cell(self, row: int, column: int, cell: Cell) -> Grid {
        Grid {
            width: self.width,
            height: self.height,
            rows: self.rows.update(row, self.rows[row].update(column, cell)),
        }
    }

    /// The board of the given size with every square in state `cell`.
    pub open spec fn filled(width: nat, height: nat, cell: Cell) -> Grid {
        Grid { width, height, rows: Seq::new(height, |r: int| Seq::new(width, |c: int| cell)) }
    }

    /// The board with every listed square put in state `cell` and every
    /// other square left as it is.
    pub open spec fn painted(self, squares: Seq<Position>, cell: Cell) -> Grid {
        Grid {
            width: self.width,
            height: self.height,
            rows: Seq::new(
                self.height,
                |r: int| Seq::new(
                    self.width,
                    |c: int| if listed(squares, r, c) {
                        cell
                    } else {
                        self.rows[r][c]
                    },
                ),
            ),
        }
    }

    /// The board with every listed square brought to life and every other
    /// square left as it is.
    pub open spec fn stamped(self, squares: Seq<Position>) -> Grid {
        self.painted(squares, Cell::Alive)
    }

    /// The board of the given size on which exactly the squares listed in
    /// `seeds` are alive.
    pub open spec fn seeded(width: nat, height: nat, seeds: Seq<Position>) -> Grid {
        Grid::filled(width, height, Cell::Dead).stamped(seeds)
    }
}

} // verus!
