use vstd::prelude::*;

use crate::matrix::{Matrix, from_fn, get, is_matrix, matrix_init, rows_of};
use crate::scalar::Scalar;

verus! {

/// What a submatrix leaves out: one row, one column, or the row and the column of one cell.
#[derive(Clone, Copy, Debug)]
pub enum Exclude {
    Row(usize),
    Column(usize),
    Cell(usize, usize),
}

/// The `i`-th line kept when line `k` of `n` is left out: the lines are taken in cyclic
/// order starting just past `k`, so the result starts at `k + 1` and wraps around.
pub open spec fn rotated(i: int, k: int, n: int) -> int {
    (i + k + 1) % n
}

/// The submatrix that leaves out what `index` names, in cyclic order past the left-out line.
pub open spec fn submatrix_of<T>(m: Seq<Seq<T>>, index: Exclude) -> Seq<Seq<T>> {
    let h = m.len() as int;
    let l = m[0].len() as int;
    match index {
        Exclude::Row(r) => from_fn(h - 1, l, |i: int, j: int| m[rotated(i, r as int, h)][j]),
        Exclude::Column(c) => from_fn(h, l - 1, |i: int, j: int| m[i][rotated(j, c as int, l)]),
        Exclude::Cell(r, c) => from_fn(
            h - 1,
            l - 1,
            |i: int, j: int| m[rotated(i, r as int, h)][rotated(j, c as int, l)],
        ),
    }
}

/// Whether `index` names a line of `m` that can be left out with a line remaining.
pub open spec fn excludable<T>(m: Seq<Seq<T>>, index: Exclude) -> bool {
    let h = m.len();
    let l = m[0].len();
    match index {
        Exclude::Row(r) => h >= 2 && r < h,
        Exclude::Column(c) => l >= 2 && c < l,
        Exclude::Cell(r, c) => h >= 2 && l >= 2 && r < h && c < l,
    }
}

/// `(i + k + 1) % n`, computed without overflow.
fn rotate(i: usize, k: usize, n: usize) -> (r: usize)
    requires
        i < n,
        k < n,
    ensures
        r == rotated(i as int, k as int, n as int),
        r < n,
{
    if i < n - 1 - k {
        assert((i + k + 1) % (n as int) == i + k + 1) by (nonlinear_arith)
            requires
                0 <= i + k + 1 < n,
        ;
        i + k + 1
    } else {
        assert((i + k + 1) % (n as int) == i + k + 1 - n) by (nonlinear_arith)
            requires
                n <= i + k + 1 < 2 * n,
        ;
        i - (n - 1 - k)
    }
}

pub trait Submatrix<T: Scalar>: Matrix<T> {
    /// The matrix without the row, the column, or both that `index` names. The lines kept
    /// come in cyclic order: first the one just past the left-out line, wrapping around.
    fn submatrix(&self, index: Exclude) -> (r: Self)
        requires
            is_matrix(self.entries()),
            excludable(self.entries(), index),
        ensures
            r.entries() == submatrix_of(self.entries(), index),
            is_matrix(r.entries()),
    ;
}

impl<T: Scalar> Submatrix<T> for Vec<Vec<T>> {
    fn submatrix(&self, index: Exclude) -> (r: Self) {
        let h = self.len();
        let l = self[0].len();
        let (nh, nl, er, ec): (usize, usize, usize, usize) = match index {
            Exclude::Row(r) => (h - 1, l, r, l),
            Exclude::Column(c) => (h, l - 1, h, c),
            Exclude::Cell(r, c) => (h - 1, l - 1, r, c),
        };
        let f = |i: usize, j: usize| -> (x: T)
            requires
                is_matrix(rows_of(self)) && h == rows_of(self).len() && l == rows_of(self)[0].len()
                    && i < nh && j < nl && (er < h ==> nh == h - 1) && (er == h ==> nh == h)
                    && (ec < l ==> nl == l - 1) && (ec == l ==> nl == l)
            ensures
                x == rows_of(self)[if er < h { rotated(i as int, er as int, h as int) } else {
                    i as int
                }][if ec < l { rotated(j as int, ec as int, l as int) } else { j as int }]
            {
                let ri = if er < h {
                    rotate(i, er, h)
                } else {
                    i
                };
                let cj = if ec < l {
                    rotate(j, ec, l)
                } else {
                    j
                };
                get(self, ri, cj)
            };
        let m = matrix_init(nh, nl, f);
        let ghost expected = submatrix_of(rows_of(self), index);
        assert forall|i: int, j: int| 0 <= i < nh && 0 <= j < nl implies rows_of(&m)[i][j]
            == expected[i][j] by {
            assert(f.ensures((i as usize, j as usize), rows_of(&m)[i][j]));
        }
        assert(rows_of(&m) =~~= expected);
        m
    }
}

} // verus!
