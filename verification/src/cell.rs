//! The state of one grid position and the rule that decides its next state.

use vstd::prelude::*;

verus! {

/// The state of a single grid position.
#[derive(Clone, Copy, Debug, PartialEq, Eq)]
pub enum Cell {
    Dead,
    Alive,
}

impl Cell {
    /// What the cell adds to the neighbor count of an adjacent position:
    /// one if it is alive, nothing if it is dead.
    pub open spec fn population(self) -> nat {
        match self {
            Cell::Dead => 0,
            Cell::Alive => 1,
        }
    }

    /// The state of a cell in the next generation, given its current state
    /// and the number of live cells around it.
    ///
    /// A live cell survives with two or three live neighbors and dies
    /// otherwise; a dead cell comes alive with exactly three.
    pub open spec fn next_state(self, live_neighbors: nat) -> Cell {
        match self {
            Cell::Alive => if live_neighbors == 2 || live_neighbors == 3 {
                Cell::Alive
            } else {
                Cell::Dead
            },
            Cell::Dead => if live_neighbors == 3 {
                Cell::Alive
            } else {
                Cell::Dead
            },
        }
    }

    /// The glyph that stands for the cell in a textual rendering: a hollow
    /// square for a dead cell, a filled square for a live one.
    pub open spec fn glyph(self) -> char {
        match self {
            Cell::Dead => '\u{25FB}',
            Cell::Alive => '\u{25FC}',
        }
    }

    /// Computes [`Cell::population`].
    pub fn count(self) -> (n: u8)
        ensures
            n == self.population(),
    {
        match self {
            Cell::Dead => 0,
            Cell::Alive => 1,
        }
    }

    /// Applies the transition rule to one cell.
    pub fn evolve(self, live_neighbors: u8) -> (next: Cell)
        ensures
            next == self.next_state(live_neighbors as nat),
    {
        match self {
            Cell::Alive => if live_neighbors < 2 || live_neighbors > 3 {
                Cell::Dead
            } else {
                Cell::Alive
            },
            Cell::Dead => if live_neighbors == 3 {
                Cell::Alive
            } else {
                Cell::Dead
            },
        }
    }
}

} // verus!
