use vstd::prelude::*;

use crate::matrix::{Matrix, from_fn, get, is_matrix, matrix_init, rows_of};
use crate::scalar::Scalar;

verus! {

/// Every entry of `m` divided by the scalar `k`.
pub open spec fn quotient_of<T: Scalar>(m: Seq<Seq<T>>, k: T) -> Seq<Seq<T>> {
    from_fn(m.len() as int, m[0].len() as int, |i: int, j: int| m[i][j].div_spec(k))
}

pub trait MDiv<T: Scalar>: Matrix<T> {
    /// The matrix divided by a scalar, `A/b`.
    fn div(&self, rhs: &T) -> (r: Self)
        requires
            is_matrix(self.entries()),
        ensures
            r.entries() == quotient_of(self.entries(), *rhs),
            is_matrix(r.entries()),
    ;
}

impl<T: Scalar> MDiv<T> for Vec<Vec<T>> {
    fn div(&self, rhs: &T) -> (r: Self) {
        let h = self.len();
        let l = self[0].len();
        let k = *rhs;
        let f = |i: usize, j: usize| -> (x: T)
            requires
                is_matrix(rows_of(self)) && i < rows_of(self).len() && j < rows_of(self)[0].len()
            ensures
                x == rows_of(self)[i as int][j as int].div_spec(k)
            {
                assert(rows_of(self)[i as int].len() == rows_of(self)[0].len());
                get(self, i, j).div(&k)
            };
        let m = matrix_init(h, l, f);
        let ghost expected = quotient_of(rows_of(self), k);
        assert forall|i: int, j: int| 0 <= i < h && 0 <= j < l implies rows_of(&m)[i][j]
            == expected[i][j] by {
            assert(f.ensures((i as usize, j as usize), rows_of(&m)[i][j]));
        }
        assert(rows_of(&m) =~~= expected);
        m
    }
}

} // verus!
