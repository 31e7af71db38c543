use vstd::prelude::*;

use crate::scalar::{Scalar, lemma_sum_take, sum};
use crate::vector::Vector;

verus! {

/// The dot product `u ⋅ v = Σ uᵢ·vᵢ`.
pub open spec fn dot_of<T: Scalar>(u: Seq<T>, v: Seq<T>) -> T {
    sum(Seq::new(u.len(), |i: int| u[i].mul_spec(v[i])))
}

pub trait Dot<T: Scalar>: Vector<T> {
    /// The dot product `u ⋅ v` of two vectors of equal length.
    fn dot(self, rhs: Self) -> (r: T)
        requires
            self.elements().len() == rhs.elements().len(),
        ensures
            r == dot_of(self.elements(), rhs.elements()),
    ;
}

impl<T: Scalar, const N: usize> Dot<T> for [T; N] {
    fn dot(self, rhs: Self) -> (r: T) {
        let ghost terms = Seq::new(self@.len(), |i: int| self@[i].mul_spec(rhs@[i]));
        let mut acc = T::zero();
        let mut i: usize = 0;
        assert(terms.take(0) =~= Seq::<T>::empty());
        while i < N
            invariant
                self@.len() == N,
                rhs@.len() == N,
                terms == Seq::new(self@.len(), |i: int| self@[i].mul_spec(rhs@[i])),
                i <= N,
                acc == sum(terms.take(i as int)),
            decreases N - i,
        {
            proof {
                lemma_sum_take(terms, i as int);
            }
            acc = acc.add(&self[i].mul(&rhs[i]));
            i = i + 1;
        }
        assert(terms.take(N as int) =~= terms);
        acc
    }
}

} // verus!
