use vstd::prelude::*;

use crate::matrix::{Matrix, from_fn, get, has_shape, is_matrix, matrix_init, rows_of};
use crate::scalar::Scalar;

verus! {

/// The entrywise difference `a - b`.
pub open spec fn entrywise_difference<T: Scalar>(a: Seq<Seq<T>>, b: Seq<Seq<T>>) -> Seq<Seq<T>> {
    from_fn(a.len() as int, a[0].len() as int, |i: int, j: int| a[i][j].sub_spec(b[i][j]))
}

pub trait MSub<T: Scalar>: Matrix<T> {
    /// The difference `A - B` of two matrices of equal dimensions.
    fn sub(&self, rhs: &Self) -> (r: Self)
        requires
            is_matrix(self.entries()),
            has_shape(rhs.entries(), self.entries().len() as int, self.entries()[0].len() as int),
        ensures
            r.entries() == entrywise_difference(self.entries(), rhs.entries()),
            is_matrix(r.entries()),
    ;
}

impl<T: Scalar> MSub<T> for Vec<Vec<T>> {
    fn sub(&self, rhs: &Self) -> (r: Self) {
        let h = self.len();
        let l = self[0].len();
        let f = |i: usize, j: usize| -> (x: T)
            requires
                is_matrix(rows_of(self)) && has_shape(rows_of(rhs), h as int, l as int) && h == rows_of(self).len()
                    && l == rows_of(self)[0].len() && i < h && j < l
            ensures
                x == rows_of(self)[i as int][j as int].sub_spec(rows_of(rhs)[i as int][j as int])
            {
                assert(rows_of(self)[i as int].len() == l);
                get(self, i, j).sub(&get(rhs, i, j))
            };
        let m = matrix_init(h, l, f);
        let ghost expected = entrywise_difference(rows_of(self), rows_of(rhs));
        assert forall|i: int, j: int| 0 <= i < h && 0 <= j < l implies rows_of(&m)[i][j]
            == expected[i][j] by {
            assert(f.ensures((i as usize, j as usize), rows_of(&m)[i][j]));
        }
        assert(rows_of(&m) =~~= expected);
        m
    }
}

} // verus!
