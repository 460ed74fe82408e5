//! Arithmetic of positions on the torus: row-major indices and coordinates
//! that wrap at the edges.

use vstd::prelude::*;
use vstd::arithmetic::div_mod::{
    lemma_fundamental_div_mod,
    lemma_fundamental_div_mod_converse,
    lemma_mod_add_multiples_vanish,
    lemma_mod_pos_bound,
    lemma_small_mod,
};
use crate::grid::Grid;

verus! {

/// The linear index of a position lies within the buffer, and the position
/// can be read back from it by division and remainder.
pub proof fn lemma_index_of_position(g: Grid, row: int, col: int)
    requires
        g.contains(row, col),
    ensures
        0 <= g.index_of(row, col) < g.width * g.height,
        g.index_of(row, col) / (g.width as int) == row,
        g.index_of(row, col) % (g.width as int) == col,
{
    let w = g.width as int;
    let h = g.height as int;
    assert(0 <= row * w && row * w + w <= h * w) by (nonlinear_arith)
        requires
            0 <= row < h,
            0 < w,
    ;
    assert(w * h == h * w) by (nonlinear_arith);
    lemma_fundamental_div_mod_converse(row * w + col, w, row, col);
}

/// Every index into the buffer is the linear index of exactly one position:
/// its quotient and remainder by the width.
pub proof fn lemma_position_of_index(g: Grid, index: int)
    requires
        g.width > 0,
        0 <= index < g.width * g.height,
    ensures
        g.contains(index / (g.width as int), index % (g.width as int)),
        g.index_of(index / (g.width as int), index % (g.width as int)) == index,
{
    let w = g.width as int;
    let h = g.height as int;
    lemma_fundamental_div_mod(index, w);
    lemma_mod_pos_bound(index, w);
    let q = index / w;
    assert(w * q == q * w) by (nonlinear_arith);
    assert(0 <= q < h) by (nonlinear_arith)
        requires
            0 < w,
            0 <= index < w * h,
            index == q * w + index % w,
            0 <= index % w < w,
    ;
}

/// Where the three offsets `size - 1`, `0` and `1` lead from the coordinate
/// `x` on an axis of length `size`: to the coordinate before `x`, to `x`
/// and to the coordinate after `x`, the two ends of the axis being adjacent.
pub proof fn lemma_wrap(x: int, size: int)
    requires
        0 <= x < size,
    ensures
        (x + (size - 1)) % size == (if x == 0 { size - 1 } else { x - 1 }),
        (x + 0) % size == x,
        (x + 1) % size == (if x == size - 1 { 0 } else { x + 1 }),
        (x + (size - 1)) % size == (x - 1) % size,
{
    lemma_small_mod(x as nat, size as nat);
    lemma_mod_add_multiples_vanish(x - 1, size);
    assert(size + (x - 1) == x + (size - 1));
    if x == 0 {
        lemma_small_mod((size - 1) as nat, size as nat);
    } else {
        lemma_small_mod((x - 1) as nat, size as nat);
    }
    if x == size - 1 {
        lemma_mod_add_multiples_vanish(0, size);
        lemma_small_mod(0, size as nat);
    } else {
        lemma_small_mod((x + 1) as nat, size as nat);
    }
}

/// The coordinate reached from `x` by `shift` steps along an axis of length
/// `size` whose two ends are adjacent.
pub fn wrap(x: u32, shift: u32, size: u32) -> (y: u32)
    requires
        size > 0,
    ensures
        y == (x + shift) % (size as int),
        y < size,
{
    proof {
        lemma_mod_pos_bound(x + shift, size as int);
    }
    let sum: u64 = x as u64 + shift as u64;
    (sum % (size as u64)) as u32
}

} // verus!
