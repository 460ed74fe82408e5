//! What holds of the automaton from one generation to the next: the shape
//! of the grid, the neighborhood on the torus, and the fate of some
//! configurations.

use vstd::prelude::*;
use crate::cell::Cell;
use crate::grid::Grid;
use crate::torus::{lemma_index_of_position, lemma_position_of_index, lemma_wrap};

verus! {

/// In the next generation, the cell at a position is what the transition
/// rule makes of the cell that is there now and of its neighbor count.
pub proof fn lemma_step_cell_at(g: Grid, row: int, col: int)
    requires
        g.wf(),
        g.contains(row, col),
    ensures
        g.step().cell_at(row, col) == g.cell_at(row, col).next_state(g.neighbor_count(row, col)),
{
    lemma_index_of_position(g, row, col);
}

/// A step changes neither the width nor the height of a grid, and leaves it
/// with one cell for each position.
pub proof fn lemma_step_keeps_shape(g: Grid)
    requires
        g.wf(),
    ensures
        g.step().wf(),
        g.step().width == g.width,
        g.step().height == g.height,
        g.step().cells.len() == g.width * g.height,
{
}

/// After any number of generations a grid has the width and the height that
/// it started with, and exactly `width * height` cells.
pub proof fn lemma_shape_is_invariant(g: Grid, generations: nat)
    requires
        g.wf(),
    ensures
        g.after(generations).wf(),
        g.after(generations).width == g.width,
        g.after(generations).height == g.height,
        g.after(generations).cells.len() == g.width * g.height,
    decreases generations,
{
    if generations > 0 {
        lemma_shape_is_invariant(g, (generations - 1) as nat);
        lemma_step_keeps_shape(g.after((generations - 1) as nat));
    }
}

/// A grid that a step leaves as it is stays as it is for any number of
/// generations.
pub proof fn lemma_fixed_point_persists(g: Grid, generations: nat)
    requires
        g.step() == g,
    ensures
        g.after(generations) == g,
    decreases generations,
{
    if generations > 0 {
        lemma_fixed_point_persists(g, (generations - 1) as nat);
    }
}

/// No position has more than eight live neighbors.
pub proof fn lemma_neighbor_count_at_most_eight(g: Grid, row: int, col: int)
    ensures
        g.neighbor_count(row, col) <= 8,
{
}

/// The neighbor count of a position is the number of live cells in its
/// Moore neighborhood on the torus.
///
/// This holds on every grid that is at least two cells wide and two cells
/// high, and on a narrower grid for every position whose cell is dead. On a
/// grid one cell wide or high, the offset that wraps around coincides with
/// the offset zero and is skipped with it, so that a live cell there is seen
/// once less from its own position than the Moore neighborhood holds it.
pub proof fn lemma_neighbor_count_is_moore_count(g: Grid, row: int, col: int)
    requires
        g.wf(),
        g.contains(row, col),
        (g.width >= 2 && g.height >= 2) || g.cell_at(row, col) == Cell::Dead,
    ensures
        g.neighbor_count(row, col) == g.moore_count(row, col),
{
    lemma_wrap(row, g.height as int);
    lemma_wrap(col, g.width as int);
}

/// The cell in the top left corner sees the opposite edges: its neighbors
/// are the three cells of the bottom row at the columns `width - 1`, `0`
/// and `1`, the two cells of its own row at the columns `width - 1` and `1`,
/// and the three cells of the row below at the same three columns.
///
/// The rows and columns `1` are taken modulo the dimensions. The statement
/// holds where [`lemma_neighbor_count_is_moore_count`] does.
pub proof fn lemma_corner_sees_opposite_edges(g: Grid)
    requires
        g.wf(),
        (g.width >= 2 && g.height >= 2) || g.cell_at(0, 0) == Cell::Dead,
    ensures
        ({
            let last_row = g.height - 1;
            let last_col = g.width - 1;
            let next_row = 1int % (g.height as int);
            let next_col = 1int % (g.width as int);
            g.neighbor_count(0, 0) == g.cell_at(last_row, last_col).population() + g.cell_at(
                last_row,
                0,
            ).population() + g.cell_at(last_row, next_col).population() + g.cell_at(
                0,
                last_col,
            ).population() + g.cell_at(0, next_col).population() + g.cell_at(
                next_row,
                last_col,
            ).population() + g.cell_at(next_row, 0).population() + g.cell_at(
                next_row,
                next_col,
            ).population()
        }),
{
    lemma_wrap(0, g.height as int);
    lemma_wrap(0, g.width as int);
}

/// Whether `y` is the coordinate `x` or the one after it, on an axis of
/// length `size` whose two ends are adjacent.
pub open spec fn in_pair(x: int, y: int, size: int) -> bool {
    y == x || y == (x + 1) % size
}

/// Whether the live cells of `g` are exactly the four cells of the 2 × 2
/// block whose top left cell is `(row, col)`. The block may reach across an
/// edge of the grid.
pub open spec fn is_block(g: Grid, row: int, col: int) -> bool {
    forall|r: int, c: int|
        g.contains(r, c) ==> ((#[trigger] g.cell_at(r, c) == Cell::Alive) <==> (in_pair(
            row,
            r,
            g.height as int,
        ) && in_pair(col, c, g.width as int)))
}

/// On a grid that holds a 2 × 2 block and nothing else, and that is at
/// least three cells wide and high, a live cell has three live neighbors
/// and a dead cell has zero, one, two or four.
proof fn lemma_block_neighbors(g: Grid, row: int, col: int, r: int, c: int)
    requires
        g.wf(),
        g.width >= 3,
        g.height >= 3,
        g.contains(row, col),
        is_block(g, row, col),
        g.contains(r, c),
    ensures
        g.cell_at(r, c) == Cell::Alive ==> g.neighbor_count(r, c) == 3,
        g.cell_at(r, c) == Cell::Dead ==> g.neighbor_count(r, c) != 3,
{
    lemma_wrap(row, g.height as int);
    lemma_wrap(col, g.width as int);
    lemma_wrap(r, g.height as int);
    lemma_wrap(c, g.width as int);
}

/// A 2 × 2 block of live cells on an otherwise dead grid that is at least
/// three cells wide and three cells high is a still life: each of its cells
/// has exactly three live neighbors, a step leaves the grid as it is, and so
/// does any number of generations.
pub proof fn lemma_block_is_still_life(g: Grid, row: int, col: int, generations: nat)
    requires
        g.wf(),
        g.width >= 3,
        g.height >= 3,
        g.contains(row, col),
        is_block(g, row, col),
    ensures
        forall|r: int, c: int|
            g.contains(r, c) && g.cell_at(r, c) == Cell::Alive ==> #[trigger] g.neighbor_count(
                r,
                c,
            ) == 3,
        g.step() == g,
        g.after(generations) == g,
{
    assert forall|r: int, c: int|
        g.contains(r, c) && g.cell_at(r, c) == Cell::Alive implies #[trigger] g.neighbor_count(
        r,
        c,
    ) == 3 by {
        lemma_block_neighbors(g, row, col, r, c);
    }
    assert forall|i: int| 0 <= i < g.cells.len() implies g.step().cells[i] == g.cells[i] by {
        lemma_position_of_index(g, i);
        lemma_block_neighbors(g, row, col, i / (g.width as int), i % (g.width as int));
    }
    assert(g.step().cells =~= g.cells);
    lemma_fixed_point_persists(g, generations);
}

/// Whether `y` is the coordinate `x`, the one before it or the one after
/// it, on an axis of length `size` whose two ends are adjacent.
pub open spec fn is_near(x: int, y: int, size: int) -> bool {
    y == x || y == (x - 1) % size || y == (x + 1) % size
}

/// Whether every position within one step of `(row, col)` on the torus,
/// other than `(row, col)` itself, holds a dead cell.
pub open spec fn is_isolated(g: Grid, row: int, col: int) -> bool {
    forall|r: int, c: int|
        g.contains(r, c) && is_near(row, r, g.height as int) && is_near(col, c, g.width as int)
            && !(r == row && c == col) ==> #[trigger] g.cell_at(r, c) == Cell::Dead
}

/// A live cell with no other live cell within one step of it is dead in the
/// next generation: it has neither two nor three live neighbors. On a grid at
/// least two cells wide and high it has none; on a narrower grid it may see
/// itself.
pub proof fn lemma_isolated_cell_dies(g: Grid, row: int, col: int)
    requires
        g.wf(),
        g.contains(row, col),
        g.cell_at(row, col) == Cell::Alive,
        is_isolated(g, row, col),
    ensures
        g.step().cell_at(row, col) == Cell::Dead,
        g.neighbor_count(row, col) != 2,
        g.neighbor_count(row, col) != 3,
        g.width >= 2 && g.height >= 2 ==> g.neighbor_count(row, col) == 0,
{
    lemma_wrap(row, g.height as int);
    lemma_wrap(col, g.width as int);
    lemma_step_cell_at(g, row, col);
}

/// On a grid without a live cell no position has a live neighbor.
proof fn lemma_dead_grid_neighbors(g: Grid, row: int, col: int)
    requires
        g.wf(),
        g.all_dead(),
        g.contains(row, col),
    ensures
        g.neighbor_count(row, col) == 0,
{
    let above = (row + (g.height - 1)) % (g.height as int);
    let below = (row + 1) % (g.height as int);
    let left = (col + (g.width - 1)) % (g.width as int);
    let right = (col + 1) % (g.width as int);
    lemma_wrap(row, g.height as int);
    lemma_wrap(col, g.width as int);
    lemma_index_of_position(g, above, left);
    lemma_index_of_position(g, above, col);
    lemma_index_of_position(g, above, right);
    lemma_index_of_position(g, row, left);
    lemma_index_of_position(g, row, col);
    lemma_index_of_position(g, row, right);
    lemma_index_of_position(g, below, left);
    lemma_index_of_position(g, below, col);
    lemma_index_of_position(g, below, right);
}

/// A grid without a live cell stays as it is: no cell comes alive, in one
/// step or in any number of generations.
pub proof fn lemma_dead_grid_stays_dead(g: Grid, generations: nat)
    requires
        g.wf(),
        g.all_dead(),
    ensures
        g.step() == g,
        g.after(generations) == g,
        g.after(generations).all_dead(),
{
    assert forall|i: int| 0 <= i < g.cells.len() implies g.step().cells[i] == g.cells[i] by {
        lemma_position_of_index(g, i);
        lemma_dead_grid_neighbors(g, i / (g.width as int), i % (g.width as int));
    }
    assert(g.step().cells =~= g.cells);
    lemma_fixed_point_persists(g, generations);
}

} // verus!
