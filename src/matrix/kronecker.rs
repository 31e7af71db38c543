use vstd::prelude::*;

use crate::matrix::{Matrix, from_fn, get, is_matrix, matrix_init, rows_of};
use crate::scalar::Scalar;

verus! {

/// The Kronecker product `a ⊗ b`: with `b` of size `h₂`×`l₂`, entry `(r, c)` is
/// `a[r / h₂][c / l₂]·b[r % h₂][c % l₂]`.
pub open spec fn kronecker_of<T: Scalar>(a: Seq<Seq<T>>, b: Seq<Seq<T>>) -> Seq<Seq<T>> {
    let h2 = b.len() as int;
    let l2 = b[0].len() as int;
    from_fn(
        a.len() * h2,
        a[0].len() * l2,
        |r: int, c: int| a[r / h2][c / l2].mul_spec(b[r % h2][c % l2]),
    )
}

pub trait KroneckerMul<T: Scalar>: Matrix<T> {
    /// The Kronecker product `A ⊗ B`.
    fn kronecker_mul(&self, rhs: &Self) -> (r: Self)
        requires
            is_matrix(self.entries()),
            is_matrix(rhs.entries()),
            self.entries().len() * rhs.entries().len() <= usize::MAX,
            self.entries()[0].len() * rhs.entries()[0].len() <= usize::MAX,
        ensures
            r.entries() == kronecker_of(self.entries(), rhs.entries()),
            is_matrix(r.entries()),
    ;
}

impl<T: Scalar> KroneckerMul<T> for Vec<Vec<T>> {
    fn kronecker_mul(&self, rhs: &Self) -> (r: Self) {
        let h1 = self.len();
        let l1 = self[0].len();
        let h2 = rhs.len();
        let l2 = rhs[0].len();
        let f = |r: usize, c: usize| -> (x: T)
            requires
                is_matrix(rows_of(self)) && is_matrix(rows_of(rhs)) && h1 == rows_of(self).len() && l1
                    == rows_of(self)[0].len() && h2 == rows_of(rhs).len() && l2 == rows_of(rhs)[0].len()
                    && r < h1 * h2 && c < l1 * l2
            ensures
                x == rows_of(self)[r as int / h2 as int][c as int / l2 as int].mul_spec(
                    rows_of(rhs)[r as int % h2 as int][c as int % l2 as int],
                )
            {
                assert(r / h2 < h1) by (nonlinear_arith)
                    requires
                        r < h1 * h2,
                        h2 > 0,
                ;
                assert(c / l2 < l1) by (nonlinear_arith)
                    requires
                        c < l1 * l2,
                        l2 > 0,
                ;
                assert(rows_of(self)[(r / h2) as int].len() == l1);
                assert(rows_of(rhs)[(r % h2) as int].len() == l2);
                get(self, r / h2, c / l2).mul(&get(rhs, r % h2, c % l2))
            };
        let m = matrix_init(h1 * h2, l1 * l2, f);
        let ghost expected = kronecker_of(rows_of(self), rows_of(rhs));
        assert forall|i: int, j: int| 0 <= i < h1 * h2 && 0 <= j < l1 * l2 implies rows_of(&m)[i][j]
            == expected[i][j] by {
            assert(f.ensures((i as usize, j as usize), rows_of(&m)[i][j]));
        }
        assert(rows_of(&m) =~~= expected);
        assert(h1 * h2 >= 1 && l1 * l2 >= 1) by (nonlinear_arith)
            requires
                h1 >= 1,
                h2 >= 1,
                l1 >= 1,
                l2 >= 1,
        ;
        m
    }
}

} // verus!
