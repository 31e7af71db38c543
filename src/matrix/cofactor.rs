use vstd::prelude::*;

use crate::matrix::adj::{Adj, adj_of};
use crate::matrix::transpose::{Transpose, transpose_of};
use crate::matrix::{SquareMatrix, is_square};
use crate::scalar::Scalar;

verus! {

pub trait Cofactor<T: Scalar>: SquareMatrix<T> {
    /// The cofactor matrix `adj(A)ᵀ`.
    fn cofactor(&self) -> (r: Self)
        requires
            is_square(self.entries()),
        ensures
            r.entries() == transpose_of(adj_of(self.entries())),
            is_square(r.entries()),
    ;
}

impl<T: Scalar> Cofactor<T> for Vec<Vec<T>> {
    fn cofactor(&self) -> (r: Self) {
        self.adj().transpose()
    }
}

} // verus!
