//! Fixed-size two-dimensional numeric buffers. A buffer's dimensions are
//! fixed at construction and never change; the payload is stored row-major.
//! The summation forms used by the fully-connected kernel (dot products,
//! row sums, column sums) are specified here together with their bounds.

use vstd::arithmetic::mul::lemma_mul_inequality;
use vstd::prelude::*;

verus! {

/// Largest row or column count a buffer may carry. The bound keeps every
/// accumulator of the kernel inside a 64-bit integer; it is a machine
/// limit, far above any model this library targets.
pub const DIM_LIMIT: usize = 0x8000;

/// A fixed-size 2D buffer of quantized 8-bit elements, stored row-major.
#[derive(Clone, Debug)]
pub struct Buffer2D {
    pub rows: usize,
    pub cols: usize,
    pub data: Vec<i8>,
}

impl Buffer2D {
    /// Well-formed: the payload holds exactly `rows * cols` elements and
    /// both dimensions stay under `DIM_LIMIT`.
    pub open spec fn wf(self) -> bool {
        &&& self.data.len() == self.rows * self.cols
        &&& self.rows <= DIM_LIMIT
        &&& self.cols <= DIM_LIMIT
    }

    /// The element at row `i`, column `j`.
    pub open spec fn idx(self, i: int, j: int) -> int {
        self.data@[i * self.cols + j] as int
    }

    pub fn new(rows: usize, cols: usize, data: Vec<i8>) -> (r: Buffer2D)
        requires
            data.len() == rows * cols,
            rows <= DIM_LIMIT,
            cols <= DIM_LIMIT,
        ensures
            r.rows == rows,
            r.cols == cols,
            r.data == data,
            r.wf(),
    {
        Buffer2D { rows, cols, data }
    }

    /// Reads the element at row `i`, column `j`.
    pub fn get(&self, i: usize, j: usize) -> (r: i8)
        requires
            self.wf(),
            i < self.rows,
            j < self.cols,
        ensures
            r as int == self.idx(i as int, j as int),
    {
        proof {
            lemma_mul_inequality(i + 1, self.rows as int, self.cols as int);
            assert((i + 1) * self.cols == i * self.cols + self.cols) by (nonlinear_arith);
        }
        self.data[i * self.cols + j]
    }
}

/// `sum of a[i][t] * b[t][j] for t < k`: the first `k` terms of the dot
/// product of row `i` of `a` with column `j` of `b`.
pub open spec fn dot_prod(a: Buffer2D, b: Buffer2D, i: int, j: int, k: int) -> int
    decreases k,
{
    if k <= 0 {
        0
    } else {
        dot_prod(a, b, i, j, k - 1) + a.idx(i, k - 1) * b.idx(k - 1, j)
    }
}

/// `sum of a[i][t] for t < k`: the first `k` terms of the sum of row `i`.
pub open spec fn row_sum(a: Buffer2D, i: int, k: int) -> int
    decreases k,
{
    if k <= 0 {
        0
    } else {
        row_sum(a, i, k - 1) + a.idx(i, k - 1)
    }
}

/// `sum of b[t][j] for t < k`: the first `k` terms of the sum of column `j`.
pub open spec fn col_sum(b: Buffer2D, j: int, k: int) -> int
    decreases k,
{
    if k <= 0 {
        0
    } else {
        col_sum(b, j, k - 1) + b.idx(k - 1, j)
    }
}

/// A row-major position computed from an in-range row and column lies
/// inside the payload.
pub proof fn lemma_rowmajor_index(i: int, rows: int, j: int, cols: int)
    requires
        0 <= i < rows,
        0 <= j < cols,
    ensures
        0 <= i * cols + j < rows * cols,
{
    assert(0 <= i * cols + j < rows * cols) by (nonlinear_arith)
        requires
            0 <= i < rows,
            0 <= j < cols,
    ;
}

/// Row-major positions are unique: two in-range row/column pairs that map
/// to the same position are the same pair.
pub proof fn lemma_rowmajor_unique(i0: int, j0: int, i1: int, j1: int, cols: int)
    requires
        0 <= j0 < cols,
        0 <= j1 < cols,
        0 <= i0,
        0 <= i1,
        i0 * cols + j0 == i1 * cols + j1,
    ensures
        i0 == i1,
        j0 == j1,
{
    assert(i0 == i1 && j0 == j1) by (nonlinear_arith)
        requires
            0 <= j0 < cols,
            0 <= j1 < cols,
            0 <= i0,
            0 <= i1,
            i0 * cols + j0 == i1 * cols + j1,
    ;
}

} // verus!
