use vstd::prelude::*;

use crate::scalar::Scalar;
use crate::vector::{Vector, array_from_fn};

verus! {

/// Every element of `u` divided by the scalar `k`.
pub open spec fn vec_quotient_of<T: Scalar>(u: Seq<T>, k: T) -> Seq<T> {
    Seq::new(u.len(), |i: int| u[i].div_spec(k))
}

pub trait VDiv<T: Scalar>: Vector<T> {
    /// The vector divided by a scalar, `u/b`.
    fn div(&self, rhs: T) -> (r: Self)
        ensures
            r.elements() == vec_quotient_of(self.elements(), rhs),
    ;
}

impl<T: Scalar, const N: usize> VDiv<T> for [T; N] {
    fn div(&self, rhs: T) -> (r: Self) {
        let f = |i: usize| -> (x: T)
            requires
                i < N
            ensures
                x == self@[i as int].div_spec(rhs)
            { self[i].div(&rhs) };
        let r: [T; N] = array_from_fn(f);
        assert forall|i: int| 0 <= i < N implies r@[i] == vec_quotient_of(self@, rhs)[i] by {
            assert(f.ensures((i as usize,), r@[i]));
        }
        assert(r@ =~= vec_quotient_of(self@, rhs));
        r
    }
}

} // verus!
