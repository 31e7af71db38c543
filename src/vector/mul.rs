use vstd::prelude::*;

use crate::scalar::Scalar;
use crate::vector::{Vector, array_from_fn};

verus! {

/// Every element of `u` times the scalar `k`.
pub open spec fn vec_scale_of<T: Scalar>(u: Seq<T>, k: T) -> Seq<T> {
    Seq::new(u.len(), |i: int| u[i].mul_spec(k))
}

pub trait VMul<T: Scalar>: Vector<T> {
    /// The product `ua` of the vector and a scalar.
    fn mul(&self, rhs: T) -> (r: Self)
        ensures
            r.elements() == vec_scale_of(self.elements(), rhs),
    ;
}

impl<T: Scalar, const N: usize> VMul<T> for [T; N] {
    fn mul(&self, rhs: T) -> (r: Self) {
        let f = |i: usize| -> (x: T)
            requires
                i < N
            ensures
                x == self@[i as int].mul_spec(rhs)
            { self[i].mul(&rhs) };
        let r: [T; N] = array_from_fn(f);
        assert forall|i: int| 0 <= i < N implies r@[i] == vec_scale_of(self@, rhs)[i] by {
            assert(f.ensures((i as usize,), r@[i]));
        }
        assert(r@ =~= vec_scale_of(self@, rhs));
        r
    }
}

} // verus!
