use vstd::prelude::*;

use crate::matrix::{Matrix, get, is_matrix, rows_of};
use crate::scalar::Scalar;

verus! {

/// The smaller of two sizes.
pub open spec fn min_of(a: int, b: int) -> int {
    if a <= b {
        a
    } else {
        b
    }
}

/// The main diagonal `{mᵢᵢ}`, from the top left, as long as the shorter side.
pub open spec fn diag_of<T>(m: Seq<Seq<T>>) -> Seq<T> {
    Seq::new(min_of(m.len() as int, m[0].len() as int) as nat, |i: int| m[i][i])
}

pub trait Diag<T: Scalar>: Matrix<T> {
    /// The diagonal of the matrix.
    fn diag(&self) -> (r: Vec<T>)
        requires
            is_matrix(self.entries()),
        ensures
            r@ == diag_of(self.entries()),
    ;
}

impl<T: Scalar> Diag<T> for Vec<Vec<T>> {
    fn diag(&self) -> (r: Vec<T>) {
        let h = self.len();
        let l = self[0].len();
        let n = if h <= l {
            h
        } else {
            l
        };
        let mut d: Vec<T> = Vec::new();
        let mut i: usize = 0;
        while i < n
            invariant
                is_matrix(rows_of(self)),
                h == rows_of(self).len(),
                l == rows_of(self)[0].len(),
                n == min_of(h as int, l as int),
                i <= n,
                d@ =~= diag_of(rows_of(self)).take(i as int),
            decreases n - i,
        {
            assert(rows_of(self)[i as int].len() == l);
            d.push(get(self, i, i));
            i = i + 1;
        }
        assert(d@ =~= diag_of(rows_of(self)));
        d
    }
}

} // verus!
