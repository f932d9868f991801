//! Coordinates on the board.

use vstd::prelude::*;

verus! {

/// A square's coordinates: `row` counts from the top, `column` from the left.
#[derive(Clone, Copy, Debug, PartialEq, Eq, Structural)]
pub struct Position {
    pub row: usize,
    pub column: usize,
}

impl Position {
    /// The position that a `(row, column)` pair stands for.
    pub open spec fn of_pair(pair: (usize, usize)) -> Position {
        Position { row: pair.0, column: pair.1 }
    }

    /// The position on the diagonal at distance `index` from the corner.
    pub open spec fn of_diagonal(index: usize) -> Position {
        Position { row: index, column: index }
    }
}

impl From<(usize, usize)> for Position {
    fn from(t: (usize, usize)) -> (position: Self) {
        Position { row: t.0, column: t.1 }
    }
}

impl vstd::std_specs::convert::FromSpecImpl<(usize, usize)> for Position {
    open spec fn obeys_from_spec() -> bool {
        true
    }

    open spec fn from_spec(t: (usize, usize)) -> Position {
        Position::of_pair(t)
    }
}

impl From<usize> for Position {
    fn from(u: usize) -> (position: Self) {
        Position { row: u, column: u }
    }
}

impl vstd::std_specs::convert::FromSpecImpl<usize> for Position {
    open spec fn obeys_from_spec() -> bool {
        true
    }

    open spec fn from_spec(u: usize) -> Position {
        Position::of_diagonal(u)
    }
}

} // verus!
