use vstd::prelude::*;

use crate::scalar::Scalar;
use crate::vector::{Vector, array_from_fn};

verus! {

/// The elementwise complex conjugate `u*`.
pub open spec fn vec_conj_of<T: Scalar>(u: Seq<T>) -> Seq<T> {
    Seq::new(u.len(), |i: int| u[i].conj_spec())
}

pub trait VConj<T: Scalar>: Vector<T> {
    /// The complex-conjugate vector `u*`.
    fn conj(&self) -> (r: Self)
        ensures
            r.elements() == vec_conj_of(self.elements()),
    ;
}

impl<T: Scalar, const N: usize> VConj<T> for [T; N] {
    fn conj(&self) -> (r: Self) {
        let f = |i: usize| -> (x: T)
            requires
                i < N
            ensures
                x == self@[i as int].conj_spec()
            { self[i].conj() };
        let r: [T; N] = array_from_fn(f);
        assert forall|i: int| 0 <= i < N implies r@[i] == vec_conj_of(self@)[i] by {
            assert(f.ensures((i as usize,), r@[i]));
        }
        assert(r@ =~= vec_conj_of(self@));
        r
    }
}

} // verus!
