use vstd::prelude::*;

use crate::matrix::{Matrix, from_fn, get, is_matrix, matrix_init, rows_of};
use crate::scalar::Scalar;

verus! {

/// The entrywise complex conjugate `m*`.
pub open spec fn conj_of<T: Scalar>(m: Seq<Seq<T>>) -> Seq<Seq<T>> {
    from_fn(m.len() as int, m[0].len() as int, |i: int, j: int| m[i][j].conj_spec())
}

pub trait MConj<T: Scalar>: Matrix<T> {
    /// The complex-conjugate matrix `A*`.
    fn conj(&self) -> (r: Self)
        requires
            is_matrix(self.entries()),
        ensures
            r.entries() == conj_of(self.entries()),
            is_matrix(r.entries()),
    ;
}

impl<T: Scalar> MConj<T> for Vec<Vec<T>> {
    fn conj(&self) -> (r: Self) {
        let h = self.len();
        let l = self[0].len();
        let f = |i: usize, j: usize| -> (x: T)
            requires
                is_matrix(rows_of(self)) && i < rows_of(self).len() && j < rows_of(self)[0].len()
            ensures
                x == rows_of(self)[i as int][j as int].conj_spec()
            {
                assert(rows_of(self)[i as int].len() == rows_of(self)[0].len());
                get(self, i, j).conj()
            };
        let m = matrix_init(h, l, f);
        let ghost expected = conj_of(rows_of(self));
        assert forall|i: int, j: int| 0 <= i < h && 0 <= j < l implies rows_of(&m)[i][j]
            == expected[i][j] by {
            assert(f.ensures((i as usize, j as usize), rows_of(&m)[i][j]));
        }
        assert(rows_of(&m) =~~= expected);
        m
    }
}

} // verus!
