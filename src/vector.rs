use vstd::prelude::*;

use crate::scalar::Scalar;

pub mod abs;
pub mod add;
pub mod conj;
pub mod cross;
pub mod div;
pub mod dot;
pub mod mul;
pub mod outer;
pub mod sub;

verus! {

/// Relies on `array_init::array_init`, which builds the array whose element `i` is
/// `initializer(i)`, calling it once for each index in increasing order.
#[verifier::external_body]
pub(crate) fn array_from_fn<T, F: Fn(usize) -> T, const N: usize>(initializer: F) -> (r: [T; N])
    requires
        forall|i: usize| i < N ==> #[trigger] initializer.requires((i,)),
    ensures
        forall|i: int| 0 <= i < N ==> initializer.ensures((i as usize,), #[trigger] r@[i]),
{
    array_init::array_init(initializer)
}

/// A vector of a fixed number of field elements.
pub trait Vector<T: Scalar>: Sized {
    /// The elements, in order.
    spec fn elements(&self) -> Seq<T>;

    /// The number of elements.
    fn length() -> usize;

    /// The vector of zeros.
    fn zero() -> (r: Self)
        ensures
            forall|i: int| 0 <= i < r.elements().len() ==> #[trigger] r.elements()[i] == T::zero_spec(),
    ;
}

impl<T: Scalar, const N: usize> Vector<T> for [T; N] {
    open spec fn elements(&self) -> Seq<T> {
        self@
    }

    fn length() -> (r: usize)
        ensures
            r == N,
    {
        N
    }

    fn zero() -> (r: Self)
        ensures
            r@ == Seq::new(N as nat, |i: int| T::zero_spec()),
    {
        let f = |i: usize| -> (x: T) ensures x == T::zero_spec() { T::zero() };
        let r: [T; N] = array_from_fn(f);
        assert forall|i: int| 0 <= i < N implies r@[i] == T::zero_spec() by {
            assert(f.ensures((i as usize,), r@[i]));
        }
        assert(r@ =~= Seq::new(N as nat, |i: int| T::zero_spec()));
        r
    }
}

} // verus!
