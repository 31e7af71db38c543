use vstd::prelude::*;

use crate::scalar::Scalar;
use crate::vector::{Vector, array_from_fn};

verus! {

/// The elementwise sum `u + v`.
pub open spec fn vec_sum_of<T: Scalar>(u: Seq<T>, v: Seq<T>) -> Seq<T> {
    Seq::new(u.len(), |i: int| u[i].add_spec(v[i]))
}

pub trait VAdd<T: Scalar>: Vector<T> {
    /// The sum `u + v` of two vectors of equal length.
    fn add(self, rhs: Self) -> (r: Self)
        requires
            self.elements().len() == rhs.elements().len(),
        ensures
            r.elements() == vec_sum_of(self.elements(), rhs.elements()),
    ;
}

impl<T: Scalar, const N: usize> VAdd<T> for [T; N] {
    fn add(self, rhs: Self) -> (r: Self) {
        let f = |i: usize| -> (x: T)
            requires
                i < N
            ensures
                x == self@[i as int].add_spec(rhs@[i as int])
            { self[i].add(&rhs[i]) };
        let r: [T; N] = array_from_fn(f);
        assert forall|i: int| 0 <= i < N implies r@[i] == vec_sum_of(self@, rhs@)[i] by {
            assert(f.ensures((i as usize,), r@[i]));
        }
        assert(r@ =~= vec_sum_of(self@, rhs@));
        r
    }
}

} // verus!
