//! Arithmetic of row-major indexing and of wrapping on a torus.

use vstd::prelude::*;
use vstd::arithmetic::div_mod::{
    lemma_fundamental_div_mod,
    lemma_fundamental_div_mod_converse,
    lemma_mod_add_multiples_vanish,
    lemma_mod_bound,
};

verus! {

/// An in-range coordinate pair has an index inside the buffer.
pub proof fn lemma_index_in_bounds(row: int, column: int, width: int, height: int)
    by (nonlinear_arith)
    requires
        0 <= row < height,
        0 <= column < width,
    ensures
        0 <= row * width + column < width * height,
{
}

/// Dividing an index by the width gives back the row, the remainder the
/// column.
pub proof fn lemma_index_splits(row: int, column: int, width: int)
    requires
        0 <= column < width,
    ensures
        (row * width + column) / width == row,
        (row * width + column) % width == column,
{
    lemma_fundamental_div_mod_converse(row * width + column, width, row, column);
}

/// Every index inside the buffer is the index of exactly one in-range
/// coordinate pair: its quotient and remainder by the width.
pub proof fn lemma_index_coordinates(index: int, width: int, height: int)
    requires
        0 < width,
        0 <= index < width * height,
    ensures
        0 <= index / width < height,
        0 <= index % width < width,
        (index / width) * width + index % width == index,
{
    lemma_fundamental_div_mod(index, width);
    lemma_mod_bound(index, width);
    let q = index / width;
    let r = index % width;
    assert(width * q == q * width) by (nonlinear_arith);
    assert(0 <= q < height) by (nonlinear_arith)
        requires
            0 < width,
            0 <= r < width,
            0 <= q * width + r < width * height,
    ;
}

/// Stepping back by one on a ring of `n` positions is stepping forward by
/// `n - 1`.
pub proof fn lemma_wrap_back(x: int, n: int)
    requires
        0 < n,
    ensures
        (x - 1) % n == (x + n - 1) % n,
        0 <= (x - 1) % n < n,
        0 <= x % n < n,
        0 <= (x + 1) % n < n,
{
    lemma_mod_add_multiples_vanish(x - 1, n);
    assert(n + (x - 1) == x + n - 1);
    lemma_mod_bound(x - 1, n);
    lemma_mod_bound(x, n);
    lemma_mod_bound(x + 1, n);
}

/// The product of two 32-bit dimensions fits in 64 bits.
pub proof fn lemma_area_fits(width: u32, height: u32)
    by (nonlinear_arith)
    ensures
        width * height <= 0xffff_fffe_0000_0001,
{
}

} // verus!
