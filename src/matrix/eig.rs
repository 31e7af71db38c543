use vstd::prelude::*;

use crate::matrix::diag::{Diag, diag_of};
use crate::matrix::mul::{MMul, mat_mul};
use crate::matrix::qr_householder::{QRHouseholder, q_of, r_of};
use crate::matrix::{Matrix, has_shape, is_square, rows_of};
use crate::scalar::Scalar;

verus! {

/// The number of QR steps taken before the eigenvalues are read off.
pub const ITERATIONS: usize = 1000;

/// The matrix after `k` steps of the unshifted QR algorithm, each replacing `A = QR`
/// with `RQ`.
pub open spec fn qr_iterate<T: Scalar>(m: Seq<Seq<T>>, k: nat) -> Seq<Seq<T>>
    decreases k,
{
    if k == 0 {
        m
    } else {
        let a = qr_iterate(m, (k - 1) as nat);
        mat_mul(r_of(a), q_of(a))
    }
}

/// The eigenvalue estimates: after [`ITERATIONS`] steps, one more decomposition `A = QR`
/// is made, and the diagonal of `RQ` is read off in diagonal order. `RQ` is similar to the
/// input, so the product of the estimates approaches the determinant as the iteration
/// converges to a triangular matrix.
pub open spec fn eig_of<T: Scalar>(m: Seq<Seq<T>>) -> Seq<T> {
    diag_of(qr_iterate(m, (ITERATIONS + 1) as nat))
}

pub trait Eig<T: Scalar>: Matrix<T> {
    /// An approximation of the eigenvalues `eig(A)`, by a fixed number of steps of the
    /// unshifted QR algorithm; there is no test of convergence.
    fn eig(&self) -> (r: Vec<T>)
        requires
            is_square(self.entries()),
        ensures
            r@ == eig_of(self.entries()),
    ;
}

impl<T: Scalar> Eig<T> for Vec<Vec<T>> {
    fn eig(&self) -> (r: Vec<T>) {
        let n = self.len();
        let (q0, r0) = self.qr_householder();
        let mut a = r0.mul(&q0);
        let mut k: usize = 1;
        assert(qr_iterate(rows_of(self), 0) == rows_of(self));
        while k < ITERATIONS
            invariant
                1 <= k <= ITERATIONS,
                n == rows_of(self).len(),
                is_square(rows_of(self)),
                rows_of(&a) == qr_iterate(rows_of(self), k as nat),
                has_shape(rows_of(&a), n as int, n as int),
            decreases ITERATIONS - k,
        {
            let (q, r) = a.qr_householder();
            a = r.mul(&q);
            k = k + 1;
        }
        let (q, r) = a.qr_householder();
        let last = r.mul(&q);
        last.diag()
    }
}

} // verus!
