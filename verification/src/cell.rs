//! The state of one square of the board.

use vstd::prelude::*;

verus! {

/// A square is either alive or dead; there is no third state.
#[derive(Clone, Copy, Debug, PartialEq, Eq, Structural)]
pub enum Cell {
    Alive,
    Dead,
}

/// Draws one fair boolean from `rand::random`. The outcome is not determined
/// by anything the caller holds, so nothing is claimed about it.
#[verifier::external_body]
fn coin_flip() -> (coin: bool) {
    rand::random::<bool>()
}

impl Cell {
    /// The opposite state.
    pub open spec fn flipped(self) -> Cell {
        match self {
            Cell::Alive => Cell::Dead,
            Cell::Dead => Cell::Alive,
        }
    }

    /// The state that a coin toss stands for: heads is alive, tails is dead.
    pub open spec fn of_coin(coin: bool) -> Cell {
        if coin {
            Cell::Alive
        } else {
            Cell::Dead
        }
    }

    /// The state this square takes in the next generation, given how many of
    /// its neighbours are alive now.
    ///
    /// A dead square with exactly three live neighbours is born; a live
    /// square with more than three dies of crowding; a live square with
    /// fewer than two dies of isolation; every other square keeps its state.
    pub open spec fn next_state(self, neighbors: nat) -> Cell {
        if self == Cell::Dead && neighbors == 3 {
            Cell::Alive
        } else if self == Cell::Alive && neighbors > 3 {
            Cell::Dead
        } else if self == Cell::Alive && neighbors < 2 {
            Cell::Dead
        } else {
            self
        }
    }

    /// Whether the square is alive.
    pub fn is_alive(&self) -> (alive: bool)
        ensures
            alive == (*self == Cell::Alive),
    {
        match self {
            Cell::Alive => true,
            Cell::Dead => false,
        }
    }

    /// Toggles the square between alive and dead.
    pub fn flip(&mut self)
        ensures
            *final(self) == old(self).flipped(),
    {
        *self = match self {
            Cell::Alive => Cell::Dead,
            Cell::Dead => Cell::Alive,
        }
    }

    /// Kills the square.
    pub fn clear(&mut self)
        ensures
            *final(self) == Cell::Dead,
    {
        *self = Cell::Dead
    }

    /// The state of this square one generation on, given the number of its
    /// neighbours that are alive now.
    pub fn evolve(self, living_neighbors: u8) -> (next: Cell)
        ensures
            next == self.next_state(living_neighbors as nat),
    {
        match (self, living_neighbors) {
            (Cell::Dead, 3) => Cell::Alive,
            (Cell::Alive, n) if n > 3 => Cell::Dead,
            (Cell::Alive, n) if n < 2 => Cell::Dead,
            _ => self,
        }
    }

    /// Turns a coin toss into a state.
    pub fn from_coin(coin: bool) -> (cell: Cell)
        ensures
            cell == Cell::of_coin(coin),
    {
        match coin {
            true => Cell::Alive,
            false => Cell::Dead,
        }
    }

    /// Replaces the square by the outcome of a fresh coin toss. Either state
    /// may result, whatever the square held before.
    pub fn randomize(&mut self) {
        let coin = coin_flip();
        *self = Cell::from_coin(coin);
    }
}

} // verus!
