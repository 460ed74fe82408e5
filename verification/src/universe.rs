//! The executable engine: a grid of fixed size that is advanced in place,
//! one generation at a time.

use vstd::prelude::*;
use vstd::arithmetic::div_mod::lemma_fundamental_div_mod_converse;
use vstd::string::StringExecFns;
use crate::cell::Cell;
use crate::grid::{seed_cell, Grid};
use crate::torus::{lemma_index_of_position, wrap};

verus! {

/// Why a universe could not be built.
#[derive(Clone, Copy, Debug, PartialEq, Eq)]
pub enum SizeError {
    /// The width or the height is zero.
    ZeroDimension,
    /// The grid would hold more cells than a `u32` can count.
    TooManyCells,
    /// The number of cells handed over is not `width * height`.
    WrongCellCount,
}

/// A toroidal grid of cells and its current generation.
pub struct Universe {
    width: u32,
    height: u32,
    cells: Vec<Cell>,
}

impl View for Universe {
    type V = Grid;

    /// The grid that the universe holds in its current generation.
    closed spec fn view(&self) -> Grid {
        Grid { width: self.width as nat, height: self.height as nat, cells: self.cells@ }
    }
}

/// The sum of what the first `n` of the column offsets `width - 1`, `0` and
/// `1` add to the neighbor count of `(row, col)` under the row offset
/// `row_shift`.
spec fn seen_in_cols(g: Grid, row: int, col: int, row_shift: int, n: int) -> nat {
    (if n > 0 {
        g.seen(row, col, row_shift, g.width - 1)
    } else {
        0
    }) + (if n > 1 {
        g.seen(row, col, row_shift, 0)
    } else {
        0
    }) + (if n > 2 {
        g.seen(row, col, row_shift, 1)
    } else {
        0
    })
}

/// The sum of what the first `n` of the row offsets `height - 1`, `0` and
/// `1` add to the neighbor count of `(row, col)`.
spec fn seen_in_rows(g: Grid, row: int, col: int, n: int) -> nat {
    (if n > 0 {
        g.seen_in_row(row, col, g.height - 1)
    } else {
        0
    }) + (if n > 1 {
        g.seen_in_row(row, col, 0)
    } else {
        0
    }) + (if n > 2 {
        g.seen_in_row(row, col, 1)
    } else {
        0
    })
}

impl Universe {
    /// The grid is well formed and holds no more cells than a `u32` counts.
    #[verifier::type_invariant]
    spec fn inv(&self) -> bool {
        &&& self@.wf()
        &&& self.cells@.len() <= u32::MAX
    }

    /// The number of cells of a grid of the given dimensions, where such a
    /// grid can be built.
    fn cell_count(width: u32, height: u32) -> (r: Result<u32, SizeError>)
        ensures
            match r {
                Ok(count) => width > 0 && height > 0 && count == width * height,
                Err(SizeError::ZeroDimension) => width == 0 || height == 0,
                Err(SizeError::TooManyCells) => width > 0 && height > 0 && width * height
                    > u32::MAX,
                Err(SizeError::WrongCellCount) => false,
            },
    {
        if width == 0 || height == 0 {
            return Err(SizeError::ZeroDimension);
        }
        assert(width * height <= 0xffff_ffff * 0xffff_ffff) by (nonlinear_arith)
            requires
                width <= 0xffff_ffff,
                height <= 0xffff_ffff,
        ;
        let total: u64 = width as u64 * height as u64;
        if total > u32::MAX as u64 {
            return Err(SizeError::TooManyCells);
        }
        Ok(total as u32)
    }

    /// Builds the grid of the given dimensions that holds the fixed initial
    /// pattern.
    fn seeded(width: u32, height: u32) -> (u: Universe)
        requires
            width > 0,
            height > 0,
            width * height <= u32::MAX,
        ensures
            u@ == Grid::seeded(width as nat, height as nat),
            u@.wf(),
    {
        let count: u32 = width * height;
        let mut cells: Vec<Cell> = Vec::new();
        let mut i: u32 = 0;
        while i < count
            invariant
                i <= count,
                cells@.len() == i,
                forall|k: int| 0 <= k < i ==> cells@[k] == seed_cell(k),
            decreases count - i,
        {
            let cell = if i % 2 == 0 || i % 7 == 0 {
                Cell::Alive
            } else {
                Cell::Dead
            };
            cells.push(cell);
            i += 1;
        }
        assert(cells@ =~= Grid::seeded(width as nat, height as nat).cells);
        Universe { width, height, cells }
    }

    /// The 64 × 64 universe with the fixed initial pattern: the cell with
    /// linear index `i` is alive where `i` is divisible by 2 or by 7.
    pub fn init() -> (u: Universe)
        ensures
            u@ == Grid::seeded(64, 64),
            u@.wf(),
    {
        Universe::seeded(64, 64)
    }

    /// A universe of the given dimensions with the fixed initial pattern.
    ///
    /// Fails where a dimension is zero, and where the grid would hold more
    /// than `u32::MAX` cells.
    pub fn new(width: u32, height: u32) -> (r: Result<Universe, SizeError>)
        ensures
            match r {
                Ok(u) => {
                    &&& width > 0
                    &&& height > 0
                    &&& width * height <= u32::MAX
                    &&& u@ == Grid::seeded(width as nat, height as nat)
                    &&& u@.wf()
                },
                Err(SizeError::ZeroDimension) => width == 0 || height == 0,
                Err(SizeError::TooManyCells) => width > 0 && height > 0 && width * height
                    > u32::MAX,
                Err(SizeError::WrongCellCount) => false,
            },
    {
        match Universe::cell_count(width, height) {
            Ok(_) => Ok(Universe::seeded(width, height)),
            Err(error) => Err(error),
        }
    }

    /// A universe of the given dimensions whose cells are the ones handed
    /// over, row by row.
    ///
    /// Fails where a dimension is zero, where the grid would hold more than
    /// `u32::MAX` cells, and where `cells` does not hold exactly
    /// `width * height` of them.
    pub fn from_cells(width: u32, height: u32, cells: Vec<Cell>) -> (r: Result<
        Universe,
        SizeError,
    >)
        ensures
            match r {
                Ok(u) => {
                    &&& width > 0
                    &&& height > 0
                    &&& cells@.len() == width * height
                    &&& width * height <= u32::MAX
                    &&& u@ == (Grid { width: width as nat, height: height as nat, cells: cells@ })
                    &&& u@.wf()
                },
                Err(SizeError::ZeroDimension) => width == 0 || height == 0,
                Err(SizeError::TooManyCells) => width > 0 && height > 0 && width * height
                    > u32::MAX,
                Err(SizeError::WrongCellCount) => width > 0 && height > 0 && width * height
                    <= u32::MAX && cells@.len() != width * height,
            },
    {
        match Universe::cell_count(width, height) {
            Ok(count) => if cells.len() == count as usize {
                Ok(Universe { width, height, cells })
            } else {
                Err(SizeError::WrongCellCount)
            },
            Err(error) => Err(error),
        }
    }

    /// The linear index of the position `(row, col)`.
    pub fn get_index(&self, row: u32, col: u32) -> (index: usize)
        requires
            self@.contains(row as int, col as int),
        ensures
            index == self@.index_of(row as int, col as int),
            index < self@.cells.len(),
    {
        proof {
            use_type_invariant(self);
            lemma_index_of_position(self@, row as int, col as int);
        }
        (row * self.width + col) as usize
    }

    /// The number of live cells among the eight neighbors of `(row, col)`
    /// on the torus.
    pub fn neighbor_count(&self, row: u32, col: u32) -> (count: u8)
        requires
            self@.contains(row as int, col as int),
        ensures
            count == self@.neighbor_count(row as int, col as int),
            count <= 8,
    {
        proof {
            use_type_invariant(self);
        }
        let ghost g = self@;
        let row_shifts: [u32; 3] = [self.height - 1, 0, 1];
        let col_shifts: [u32; 3] = [self.width - 1, 0, 1];
        let mut tot: u8 = 0;
        let mut i: usize = 0;
        while i < 3
            invariant
                i <= 3,
                g == self@,
                g.wf(),
                g.contains(row as int, col as int),
                row_shifts[0] == self.height - 1 && row_shifts[1] == 0 && row_shifts[2] == 1,
                col_shifts[0] == self.width - 1 && col_shifts[1] == 0 && col_shifts[2] == 1,
                tot == seen_in_rows(g, row as int, col as int, i as int),
                tot <= 3 * i,
            decreases 3 - i,
        {
            let row_shift = row_shifts[i];
            let mut j: usize = 0;
            while j < 3
                invariant
                    i < 3,
                    j <= 3,
                    g == self@,
                    g.wf(),
                    g.contains(row as int, col as int),
                    row_shift == row_shifts[i as int],
                    row_shifts[0] == self.height - 1 && row_shifts[1] == 0 && row_shifts[2] == 1,
                    col_shifts[0] == self.width - 1 && col_shifts[1] == 0 && col_shifts[2] == 1,
                    tot == seen_in_rows(g, row as int, col as int, i as int) + seen_in_cols(
                        g,
                        row as int,
                        col as int,
                        row_shift as int,
                        j as int,
                    ),
                    tot <= 3 * i + j,
                decreases 3 - j,
            {
                let col_shift = col_shifts[j];
                if !(row_shift == 0 && col_shift == 0) {
                    let n_row = wrap(row, row_shift, self.height);
                    let n_col = wrap(col, col_shift, self.width);
                    let index = self.get_index(n_row, n_col);
                    tot += self.cells[index].count();
                }
                j += 1;
            }
            i += 1;
        }
        tot
    }

    /// Advances the universe by one generation.
    ///
    /// The next generation is computed from the current one alone, into a
    /// buffer of its own that then takes the place of the current one; the
    /// dimensions stay as they are.
    pub fn tick(&mut self)
        ensures
            final(self)@ == old(self)@.step(),
            final(self)@.width == old(self)@.width,
            final(self)@.height == old(self)@.height,
            final(self)@.wf(),
    {
        proof {
            use_type_invariant(&*self);
        }
        let ghost g = self@;
        let mut next = self.cells.clone();
        let mut row: u32 = 0;
        while row < self.height
            invariant
                row <= self.height,
                self@ == g,
                g.wf(),
                next@.len() == g.cells.len(),
                forall|k: int| 0 <= k < row * g.width ==> next@[k] == g.next_cell(k),
            decreases self.height - row,
        {
            let mut col: u32 = 0;
            while col < self.width
                invariant
                    row < self.height,
                    col <= self.width,
                    self@ == g,
                    g.wf(),
                    next@.len() == g.cells.len(),
                    forall|k: int| 0 <= k < row * g.width + col ==> next@[k] == g.next_cell(k),
                decreases self.width - col,
            {
                let index = self.get_index(row, col);
                let n_count = self.neighbor_count(row, col);
                let curr_cell = self.cells[index];
                let next_cell = curr_cell.evolve(n_count);
                proof {
                    lemma_index_of_position(g, row as int, col as int);
                }
                next[index] = next_cell;
                col += 1;
            }
            assert((row + 1) * g.width == row * g.width + g.width) by (nonlinear_arith);
            row += 1;
        }
        assert(next@ =~= g.step().cells);
        self.cells = next;
    }

    /// The universe as text: one line for each row, from top to bottom,
    /// with a hollow square for each dead cell and a filled square for each
    /// live one, and a newline at the end of every line.
    pub fn render(&self) -> (text: String)
        ensures
            text@ == self@.render(),
    {
        proof {
            use_type_invariant(self);
        }
        let ghost g = self@;
        let ghost line = g.width as int + 1;
        let mut text = String::new();
        let mut row: u32 = 0;
        while row < self.height
            invariant
                row <= self.height,
                self@ == g,
                g.wf(),
                line == g.width + 1,
                text@.len() == row * line,
                forall|k: int| 0 <= k < row * line ==> text@[k] == g.render_char(k),
            decreases self.height - row,
        {
            let mut col: u32 = 0;
            while col < self.width
                invariant
                    row < self.height,
                    col <= self.width,
                    self@ == g,
                    g.wf(),
                    line == g.width + 1,
                    text@.len() == row * line + col,
                    forall|k: int| 0 <= k < row * line + col ==> text@[k] == g.render_char(k),
                decreases self.width - col,
            {
                let index = self.get_index(row, col);
                proof {
                    lemma_fundamental_div_mod_converse(
                        row * line + col,
                        line,
                        row as int,
                        col as int,
                    );
                    reveal_strlit("\u{25FB}");
                    reveal_strlit("\u{25FC}");
                }
                match self.cells[index] {
                    Cell::Dead => text.append("\u{25FB}"),
                    Cell::Alive => text.append("\u{25FC}"),
                }
                col += 1;
            }
            proof {
                lemma_fundamental_div_mod_converse(
                    row * line + col,
                    line,
                    row as int,
                    col as int,
                );
                reveal_strlit("\n");
                assert((row + 1) * line == row * line + line) by (nonlinear_arith);
            }
            text.append("\n");
            row += 1;
        }
        assert(text@ =~= g.render());
        text
    }

    /// The number of columns.
    pub fn width(&self) -> (width: u32)
        ensures
            width == self@.width,
            width > 0,
    {
        proof {
            use_type_invariant(self);
        }
        self.width
    }

    /// The number of rows.
    pub fn height(&self) -> (height: u32)
        ensures
            height == self@.height,
            height > 0,
    {
        proof {
            use_type_invariant(self);
        }
        self.height
    }

    /// The cells of the current generation, row by row.
    pub fn cells(&self) -> (cells: &[Cell])
        ensures
            cells@ == self@.cells,
            self@.wf(),
    {
        proof {
            use_type_invariant(self);
        }
        self.cells.as_slice()
    }
}

} // verus!
