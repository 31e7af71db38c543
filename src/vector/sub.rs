use vstd::prelude::*;

use crate::scalar::Scalar;
use crate::vector::{Vector, array_from_fn};

verus! {

/// The elementwise difference `u - v`.
pub open spec fn vec_difference_of<T: Scalar>(u: Seq<T>, v: Seq<T>) -> Seq<T> {
    Seq::new(u.len(), |i: int| u[i].sub_spec(v[i]))
}

pub trait VSub<T: Scalar>: Vector<T> {
    /// The difference `u - v` of two vectors of equal length.
    fn sub(self, rhs: Self) -> (r: Self)
        requires
            self.elements().len() == rhs.elements().len(),
        ensures
            r.elements() == vec_difference_of(self.elements(), rhs.elements()),
    ;
}

impl<T: Scalar, const N: usize> VSub<T> for [T; N] {
    fn sub(self, rhs: Self) -> (r: Self) {
        let f = |i: usize| -> (x: T)
            requires
                i < N
            ensures
                x == self@[i as int].sub_spec(rhs@[i as int])
            { self[i].sub(&rhs[i]) };
        let r: [T; N] = array_from_fn(f);
        assert forall|i: int| 0 <= i < N implies r@[i] == vec_difference_of(self@, rhs@)[i] by {
            assert(f.ensures((i as usize,), r@[i]));
        }
        assert(r@ =~= vec_difference_of(self@, rhs@));
        r
    }
}

} // verus!
