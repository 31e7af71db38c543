use vstd::prelude::*;

use crate::matrix::adj::{Adj, adj_of, lemma_adjugate_product};
use crate::matrix::det::{Det, det_of};
use crate::matrix::mul::{MMul, mat_mul, scale_of};
use crate::matrix::{SquareMatrix, has_shape, identity_of, is_square};
use crate::scalar::{
    Scalar, field_laws, lemma_distrib, lemma_field_ring, lemma_mul_assoc, lemma_mul_comm,
    lemma_mul_one, lemma_mul_recip, lemma_sum1, lemma_sum2, ring_laws,
};

verus! {

/// The inverse as this library computes it: the adjugate times `1 / det`.
pub open spec fn inverse_of<T: Scalar>(m: Seq<Seq<T>>) -> Seq<Seq<T>> {
    scale_of(adj_of(m), det_of(m).recip_spec())
}

pub trait MInv<T: Scalar>: SquareMatrix<T> {
    /// The inverse `A⁻¹`, or `None` where the determinant is exactly zero.
    fn inv(&self) -> (r: Option<Self>)
        requires
            is_square(self.entries()),
        ensures
            r is None <==> det_of(self.entries()).is_zero_spec(),
            r matches Some(b) ==> b.entries() == inverse_of(self.entries()) && is_square(
                b.entries(),
            ),
    ;
}

impl<T: Scalar> MInv<T> for Vec<Vec<T>> {
    fn inv(&self) -> (r: Option<Self>) {
        let d = self.det();
        if d.is_zero() {
            None
        } else {
            let a = self.adj();
            Some(a.mul(&d.recip()))
        }
    }
}

/// Over a commutative ring, scaling either factor of a product of matrices of size one or
/// two scales the product.
proof fn lemma_mul_scaled<T: Scalar>(a: Seq<Seq<T>>, b: Seq<Seq<T>>, k: T)
    requires
        ring_laws::<T>(),
        1 <= a.len() <= 2,
        has_shape(a, a.len() as int, a.len() as int),
        has_shape(b, a.len() as int, a.len() as int),
    ensures
        mat_mul(a, scale_of(b, k)) == scale_of(mat_mul(a, b), k),
        mat_mul(scale_of(a, k), b) == scale_of(mat_mul(a, b), k),
{
    let n = a.len() as int;
    let sb = scale_of(b, k);
    let sa = scale_of(a, k);
    assert forall|i: int, j: int| 0 <= i < n && 0 <= j < n implies mat_mul(a, sb)[i][j]
        == scale_of(mat_mul(a, b), k)[i][j] && mat_mul(sa, b)[i][j] == scale_of(
        mat_mul(a, b),
        k,
    )[i][j] by {
        let plain = Seq::new(n as nat, |t: int| a[i][t].mul_spec(b[t][j]));
        let right = Seq::new(n as nat, |t: int| a[i][t].mul_spec(sb[t][j]));
        let left = Seq::new(n as nat, |t: int| sa[i][t].mul_spec(b[t][j]));
        assert forall|t: int| 0 <= t < n implies right[t] == plain[t].mul_spec(k) && left[t]
            == plain[t].mul_spec(k) by {
            lemma_mul_assoc(a[i][t], b[t][j], k);
            lemma_mul_assoc(a[i][t], k, b[t][j]);
            lemma_mul_comm(k, b[t][j]);
        }
        if n == 1 {
            lemma_sum1(plain);
            lemma_sum1(right);
            lemma_sum1(left);
        } else {
            lemma_sum2(plain);
            lemma_sum2(right);
            lemma_sum2(left);
            lemma_distrib(k, plain[0], plain[1]);
        }
    }
    assert(mat_mul(a, sb) =~~= scale_of(mat_mul(a, b), k));
    assert(mat_mul(sa, b) =~~= scale_of(mat_mul(a, b), k));
}

/// Over a field, the inverse of a matrix of size one or two whose determinant is not zero
/// is an inverse on both sides: `A·A⁻¹ = A⁻¹·A = I`.
pub proof fn lemma_inverse_two_sided<T: Scalar>(m: Seq<Seq<T>>)
    requires
        field_laws::<T>(),
        is_square(m),
        m.len() <= 2,
        !det_of(m).is_zero_spec(),
    ensures
        mat_mul(m, inverse_of(m)) == identity_of::<T>(m.len() as int),
        mat_mul(inverse_of(m), m) == identity_of::<T>(m.len() as int),
{
    lemma_field_ring::<T>();
    let n = m.len() as int;
    let d = det_of(m);
    let r = d.recip_spec();
    let id = identity_of::<T>(n);
    lemma_adjugate_product(m);
    assert(has_shape(adj_of(m), n, n));
    lemma_mul_scaled(m, adj_of(m), r);
    lemma_mul_scaled(adj_of(m), m, r);
    lemma_mul_recip(d);
    assert forall|i: int, j: int| 0 <= i < n && 0 <= j < n implies scale_of(scale_of(id, d), r)[i][j]
        == id[i][j] by {
        lemma_mul_assoc(id[i][j], d, r);
        lemma_mul_one(id[i][j]);
    }
    assert(scale_of(scale_of(id, d), r) =~~= id);
}

} // verus!
