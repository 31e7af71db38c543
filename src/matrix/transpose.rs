use vstd::prelude::*;

use crate::matrix::{Matrix, from_fn, get, is_matrix, matrix_init, rows_of};
use crate::scalar::Scalar;

verus! {

/// `mᵀ`: the entry at row `i`, column `j` is `m[j][i]`.
pub open spec fn transpose_of<T>(m: Seq<Seq<T>>) -> Seq<Seq<T>> {
    from_fn(m[0].len() as int, m.len() as int, |i: int, j: int| m[j][i])
}

pub trait Transpose<T: Scalar>: Matrix<T> {
    /// The transposed matrix `Aᵀ`.
    fn transpose(&self) -> (r: Self)
        requires
            is_matrix(self.entries()),
        ensures
            r.entries() == transpose_of(self.entries()),
            is_matrix(r.entries()),
    ;
}

impl<T: Scalar> Transpose<T> for Vec<Vec<T>> {
    fn transpose(&self) -> (r: Self) {
        let h = self.len();
        let l = self[0].len();
        let f = |r: usize, c: usize| -> (x: T)
            requires
                is_matrix(rows_of(self)) && r < rows_of(self)[0].len() && c < rows_of(self).len()
            ensures
                x == rows_of(self)[c as int][r as int]
            { get(self, c, r) };
        let m = matrix_init(l, h, f);
        assert forall|i: int, j: int| 0 <= i < l && 0 <= j < h implies rows_of(&m)[i][j] == transpose_of(rows_of(self))[i][j] by {
            assert(f.ensures((i as usize, j as usize), rows_of(&m)[i][j]));
        }
        assert(rows_of(&m) =~~= transpose_of(rows_of(self)));
        m
    }
}

} // verus!
