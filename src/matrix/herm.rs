use vstd::prelude::*;

use crate::matrix::{Matrix, from_fn, get, is_matrix, matrix_init, rows_of};
use crate::scalar::Scalar;

verus! {

/// The conjugate transpose `mᴴ`: entry `(i, j)` is the conjugate of `m[j][i]`.
pub open spec fn herm_of<T: Scalar>(m: Seq<Seq<T>>) -> Seq<Seq<T>> {
    from_fn(m[0].len() as int, m.len() as int, |i: int, j: int| m[j][i].conj_spec())
}

pub trait Herm<T: Scalar>: Matrix<T> {
    /// The Hermitian (complex-conjugate transposed) matrix `Aᴴ = (A*)ᵀ`.
    fn herm(&self) -> (r: Self)
        requires
            is_matrix(self.entries()),
        ensures
            r.entries() == herm_of(self.entries()),
            is_matrix(r.entries()),
    ;
}

impl<T: Scalar> Herm<T> for Vec<Vec<T>> {
    fn herm(&self) -> (r: Self) {
        let h = self.len();
        let l = self[0].len();
        let f = |i: usize, j: usize| -> (x: T)
            requires
                is_matrix(rows_of(self)) && i < rows_of(self)[0].len() && j < rows_of(self).len()
            ensures
                x == rows_of(self)[j as int][i as int].conj_spec()
            { get(self, j, i).conj() };
        let m = matrix_init(l, h, f);
        let ghost expected = herm_of(rows_of(self));
        assert forall|i: int, j: int| 0 <= i < l && 0 <= j < h implies rows_of(&m)[i][j]
            == expected[i][j] by {
            assert(f.ensures((i as usize, j as usize), rows_of(&m)[i][j]));
        }
        assert(rows_of(&m) =~~= expected);
        m
    }
}

} // verus!
