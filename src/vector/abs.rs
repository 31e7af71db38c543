use vstd::prelude::*;

use crate::scalar::{Scalar, lemma_sum_take, sum};
use crate::vector::Vector;

verus! {

/// The squared Euclidean length `‖u‖² = Σ |uᵢ|²`.
pub open spec fn abs_sqr_of<T: Scalar>(u: Seq<T>) -> T {
    sum(u.map_values(|e: T| e.norm_sqr_spec()))
}

pub trait VAbs<T: Scalar>: Vector<T> {
    /// The squared Euclidean length `‖u‖²`.
    fn abs_sqr(&self) -> (r: T)
        ensures
            r == abs_sqr_of(self.elements()),
    ;

    /// The Euclidean length `‖u‖`.
    fn abs(&self) -> (r: T)
        ensures
            r == abs_sqr_of(self.elements()).sqrt_spec(),
    ;
}

impl<T: Scalar, const N: usize> VAbs<T> for [T; N] {
    fn abs_sqr(&self) -> (r: T) {
        let ghost sq = self@.map_values(|e: T| e.norm_sqr_spec());
        let mut acc = T::zero();
        let mut i: usize = 0;
        assert(sq.take(0) =~= Seq::<T>::empty());
        while i < N
            invariant
                self@.len() == N,
                sq == self@.map_values(|e: T| e.norm_sqr_spec()),
                i <= N,
                acc == sum(sq.take(i as int)),
            decreases N - i,
        {
            proof {
                lemma_sum_take(sq, i as int);
            }
            acc = acc.add(&self[i].norm_sqr());
            i = i + 1;
        }
        assert(sq.take(N as int) =~= sq);
        acc
    }

    fn abs(&self) -> (r: T) {
        self.abs_sqr().sqrt()
    }
}

} // verus!
