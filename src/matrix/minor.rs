use vstd::prelude::*;

use crate::matrix::det::{det_of, det_rec, minor_of};
use crate::matrix::submatrix::{Exclude, Submatrix};
use crate::matrix::{Matrix, is_square};
use crate::scalar::Scalar;

verus! {

pub trait Minor<T: Scalar>: Matrix<T> {
    /// The determinant `|Mᵢⱼ|` of the submatrix without row `index.0` and column `index.1`,
    /// its lines in the cyclic order of [`Submatrix::submatrix`](crate::Submatrix). Where
    /// that order is an odd rearrangement of the original one, this is the negated minor
    /// that the determinant and the adjugate use, which keep the order.
    fn minor(&self, index: (usize, usize)) -> (r: T)
        requires
            is_square(self.entries()),
            self.entries().len() >= 2,
            index.0 < self.entries().len(),
            index.1 < self.entries().len(),
        ensures
            r == minor_of(self.entries(), index.0 as int, index.1 as int),
    ;
}

impl<T: Scalar> Minor<T> for Vec<Vec<T>> {
    fn minor(&self, index: (usize, usize)) -> (r: T) {
        let sub = self.submatrix(Exclude::Cell(index.0, index.1));
        det_rec(&sub)
    }
}

} // verus!
