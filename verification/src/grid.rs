//! The mathematical model of the automaton: a rectangular arrangement of
//! cells whose opposite edges are adjacent, and the function that takes one
//! generation to the next.

use vstd::prelude::*;
use crate::cell::Cell;

verus! {

/// A `width` × `height` arrangement of cells, stored row by row: the cell in
/// row `row` and column `col` is `cells[row * width + col]`.
pub struct Grid {
    pub width: nat,
    pub height: nat,
    pub cells: Seq<Cell>,
}

/// The state that the fixed initial pattern gives to the cell with linear
/// index `index`: alive where the index is divisible by 2 or by 7.
pub open spec fn seed_cell(index: int) -> Cell {
    if index % 2 == 0 || index % 7 == 0 {
        Cell::Alive
    } else {
        Cell::Dead
    }
}

impl Grid {
    /// Both dimensions are positive and there is exactly one cell for each
    /// position.
    pub open spec fn wf(self) -> bool {
        &&& self.width > 0
        &&& self.height > 0
        &&& self.cells.len() == self.width * self.height
    }

    /// Whether `(row, col)` is a position of the grid.
    pub open spec fn contains(self, row: int, col: int) -> bool {
        0 <= row < self.height && 0 <= col < self.width
    }

    /// The linear index of the position `(row, col)`.
    pub open spec fn index_of(self, row: int, col: int) -> int {
        row * self.width + col
    }

    /// The cell at the position `(row, col)`.
    pub open spec fn cell_at(self, row: int, col: int) -> Cell {
        self.cells[self.index_of(row, col)]
    }

    /// The grid of the given dimensions that holds the fixed initial pattern.
    pub open spec fn seeded(width: nat, height: nat) -> Grid {
        Grid { width, height, cells: Seq::new(width * height, |i: int| seed_cell(i)) }
    }

    /// What the position reached from `(row, col)` by the offset pair
    /// `(row_shift, col_shift)` adds to the neighbor count of `(row, col)`.
    ///
    /// The offsets are added modulo the dimensions, so that a position past
    /// an edge is taken from the opposite edge. The offset pair `(0, 0)` is
    /// the cell itself and adds nothing.
    pub open spec fn seen(self, row: int, col: int, row_shift: int, col_shift: int) -> nat {
        if row_shift == 0 && col_shift == 0 {
            0
        } else {
            self.cell_at(
                (row + row_shift) % (self.height as int),
                (col + col_shift) % (self.width as int),
            ).population()
        }
    }

    /// The part of the neighbor count of `(row, col)` that comes from the
    /// row offset `row_shift`: the column offsets are `width - 1`, `0`
    /// and `1`.
    pub open spec fn seen_in_row(self, row: int, col: int, row_shift: int) -> nat {
        self.seen(row, col, row_shift, self.width - 1) + self.seen(row, col, row_shift, 0)
            + self.seen(row, col, row_shift, 1)
    }

    /// The number of live cells around `(row, col)`: the row offsets
    /// `height - 1`, `0` and `1` are combined with the column offsets
    /// `width - 1`, `0` and `1`, and every pair but `(0, 0)` is looked up on
    /// the torus. A position that several offset pairs reach is counted once
    /// for each of them.
    pub open spec fn neighbor_count(self, row: int, col: int) -> nat {
        self.seen_in_row(row, col, self.height - 1) + self.seen_in_row(row, col, 0)
            + self.seen_in_row(row, col, 1)
    }

    /// What the cell at `(row, col)` adds to a count of live cells, where
    /// the coordinates are taken modulo the dimensions, so that every pair of
    /// integers names a position of the torus.
    pub open spec fn live_at(self, row: int, col: int) -> nat {
        self.cell_at(row % (self.height as int), col % (self.width as int)).population()
    }

    /// The number of live cells among the eight positions that lie one step
    /// from `(row, col)` on the torus, horizontally, vertically or
    /// diagonally.
    pub open spec fn moore_count(self, row: int, col: int) -> nat {
        self.live_at(row - 1, col - 1) + self.live_at(row - 1, col) + self.live_at(
            row - 1,
            col + 1,
        ) + self.live_at(row, col - 1) + self.live_at(row, col + 1) + self.live_at(
            row + 1,
            col - 1,
        ) + self.live_at(row + 1, col) + self.live_at(row + 1, col + 1)
    }

    /// The state in the next generation of the cell with linear index
    /// `index`.
    pub open spec fn next_cell(self, index: int) -> Cell {
        self.cells[index].next_state(
            self.neighbor_count(index / (self.width as int), index % (self.width as int)),
        )
    }

    /// The next generation: every cell is replaced by what the transition
    /// rule makes of it and of its neighbor count in this generation.
    pub open spec fn step(self) -> Grid {
        Grid {
            width: self.width,
            height: self.height,
            cells: Seq::new(self.cells.len(), |i: int| self.next_cell(i)),
        }
    }

    /// The grid after the given number of generations: the result of that
    /// many steps, one after the other.
    pub open spec fn after(self, generations: nat) -> Grid
        decreases generations,
    {
        if generations == 0 {
            self
        } else {
            self.after((generations - 1) as nat).step()
        }
    }

    /// The character at position `i` of the textual rendering. A line holds
    /// the `width` glyphs of one row, then a newline.
    pub open spec fn render_char(self, i: int) -> char {
        let line: int = self.width as int + 1;
        if i % line == self.width {
            '\n'
        } else {
            self.cell_at(i / line, i % line).glyph()
        }
    }

    /// The textual rendering: the rows from top to bottom, each as one line
    /// that ends in a newline.
    pub open spec fn render(self) -> Seq<char> {
        Seq::new(self.height * (self.width + 1), |i: int| self.render_char(i))
    }

    /// Whether every cell is dead.
    pub open spec fn all_dead(self) -> bool {
        forall|i: int| 0 <= i < self.cells.len() ==> self.cells[i] == Cell::Dead
    }
}

} // verus!
