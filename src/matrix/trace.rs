use vstd::prelude::*;

use crate::matrix::{SquareMatrix, get, is_square, rows_of};
use crate::scalar::{Scalar, lemma_sum_take, sum};

verus! {

/// The sum of the diagonal entries, `Tr(m)`.
pub open spec fn trace_of<T: Scalar>(m: Seq<Seq<T>>) -> T {
    sum(Seq::new(m.len(), |i: int| m[i][i]))
}

pub trait Trace<T: Scalar>: SquareMatrix<T> {
    /// The trace `Tr(A)`.
    fn trace(&self) -> (r: T)
        requires
            is_square(self.entries()),
        ensures
            r == trace_of(self.entries()),
    ;
}

impl<T: Scalar> Trace<T> for Vec<Vec<T>> {
    fn trace(&self) -> (r: T) {
        let n = self.len();
        let ghost terms = Seq::new(rows_of(self).len(), |i: int| rows_of(self)[i][i]);
        let mut acc = T::zero();
        let mut i: usize = 0;
        assert(terms.take(0) =~= Seq::<T>::empty());
        while i < n
            invariant
                is_square(rows_of(self)),
                n == rows_of(self).len(),
                terms == Seq::new(rows_of(self).len(), |i: int| rows_of(self)[i][i]),
                i <= n,
                acc == sum(terms.take(i as int)),
            decreases n - i,
        {
            assert(rows_of(self)[i as int].len() == n);
            proof {
                lemma_sum_take(terms, i as int);
            }
            acc = acc.add(&get(self, i, i));
            i = i + 1;
        }
        assert(terms.take(n as int) =~= terms);
        acc
    }
}

} // verus!
