use vstd::prelude::*;

use crate::matrix::det::{delete, deleted_minor_of, det_of, det_rec};
use crate::matrix::mul::{mat_mul, scale_of};
use crate::matrix::{SquareMatrix, from_fn, get, identity_of, is_square, matrix_init, rows_of};
use crate::scalar::{
    Scalar, lemma_add_comm, lemma_add_neg, lemma_mul_comm, lemma_mul_neg, lemma_mul_one,
    lemma_mul_zero, lemma_sub_def, lemma_sum1, lemma_sum2, ring_laws,
};

verus! {

/// `+1` where `k` is even, `-1` where it is odd.
pub open spec fn sign_of<T: Scalar>(k: int) -> T {
    if k % 2 == 0 {
        T::one_spec()
    } else {
        T::one_spec().neg_spec()
    }
}

/// The adjugate: `[[1]]` for size 1; the diagonal swapped and the rest negated for size 2;
/// for larger sizes, entry `(r, c)` is `(-1)^(r+c)` times the determinant of `m` without
/// row `c` and column `r`, the index transposed.
pub open spec fn adj_of<T: Scalar>(m: Seq<Seq<T>>) -> Seq<Seq<T>> {
    if m.len() <= 1 {
        seq![seq![T::one_spec()]]
    } else if m.len() == 2 {
        seq![seq![m[1][1], m[0][1].neg_spec()], seq![m[1][0].neg_spec(), m[0][0]]]
    } else {
        from_fn(
            m.len() as int,
            m.len() as int,
            |r: int, c: int| sign_of::<T>(r + c).mul_spec(deleted_minor_of(m, c, r)),
        )
    }
}

pub trait Adj<T: Scalar>: SquareMatrix<T> {
    /// The adjugate matrix `adj(A)`.
    fn adj(&self) -> (r: Self)
        requires
            is_square(self.entries()),
        ensures
            r.entries() == adj_of(self.entries()),
            is_square(r.entries()),
    ;
}

impl<T: Scalar> Adj<T> for Vec<Vec<T>> {
    fn adj(&self) -> (r: Self) {
        let n = self.len();
        if n == 1 {
            let m = vec![vec![T::one()]];
            assert(rows_of(&m) =~~= adj_of(rows_of(self)));
            m
        } else if n == 2 {
            let m = vec![
                vec![get(self, 1, 1), get(self, 0, 1).neg()],
                vec![get(self, 1, 0).neg(), get(self, 0, 0)],
            ];
            assert(rows_of(&m) =~~= adj_of(rows_of(self)));
            m
        } else {
            let f = |r: usize, c: usize| -> (x: T)
                requires
                    is_square(rows_of(self)) && rows_of(self).len() >= 3 && r < rows_of(self).len()
                        && c < rows_of(self).len()
                ensures
                    x == sign_of::<T>(r + c).mul_spec(deleted_minor_of(rows_of(self), c as int, r as int))
                {
                    let s = if (r % 2 == 0) == (c % 2 == 0) {
                        T::one()
                    } else {
                        T::one().neg()
                    };
                    assert(s == sign_of::<T>(r + c)) by {
                        assert(((r + c) % 2 == 0) == ((r % 2 == 0) == (c % 2 == 0)));
                    }
                    s.mul(&det_rec(&delete(self, c, r)))
                };
            let m = matrix_init(n, n, f);
            let ghost expected = adj_of(rows_of(self));
            assert forall|i: int, j: int| 0 <= i < n && 0 <= j < n implies rows_of(&m)[i][j]
                == expected[i][j] by {
                assert(f.ensures((i as usize, j as usize), rows_of(&m)[i][j]));
            }
            assert(rows_of(&m) =~~= expected);
            m
        }
    }
}

/// `x + -x` with the terms in either order is zero.
proof fn lemma_cancel<T: Scalar>(x: T, y: T)
    requires
        ring_laws::<T>(),
        x == y,
    ensures
        x.neg_spec().add_spec(y) == T::zero_spec(),
        x.add_spec(y.neg_spec()) == T::zero_spec(),
{
    lemma_add_neg(x);
    lemma_add_comm(x.neg_spec(), x);
}

/// Over a commutative ring, a matrix of size one or two times its adjugate, on either
/// side, is its determinant times the identity.
pub proof fn lemma_adjugate_product<T: Scalar>(m: Seq<Seq<T>>)
    requires
        ring_laws::<T>(),
        is_square(m),
        m.len() <= 2,
    ensures
        mat_mul(m, adj_of(m)) == scale_of(identity_of::<T>(m.len() as int), det_of(m)),
        mat_mul(adj_of(m), m) == scale_of(identity_of::<T>(m.len() as int), det_of(m)),
{
    let n = m.len() as int;
    let adj = adj_of(m);
    let d = det_of(m);
    let target = scale_of(identity_of::<T>(n), d);
    let left = mat_mul(m, adj);
    let right = mat_mul(adj, m);
    let z = T::zero_spec();
    let one = T::one_spec();
    lemma_mul_one(d);
    lemma_mul_zero(d);
    if n == 1 {
        let a = m[0][0];
        lemma_sum1(Seq::new(1, |k: int| m[0][k].mul_spec(adj[k][0])));
        lemma_sum1(Seq::new(1, |k: int| adj[0][k].mul_spec(m[k][0])));
        lemma_mul_one(a);
        assert(left =~~= target);
        assert(right =~~= target);
    } else {
        let (a, b, c, e) = (m[0][0], m[0][1], m[1][0], m[1][1]);
        assert(d == a.mul_spec(e).sub_spec(b.mul_spec(c)));
        lemma_sub_def(a.mul_spec(e), b.mul_spec(c));
        assert forall|i: int, j: int| 0 <= i < 2 && 0 <= j < 2 implies left[i][j]
            == target[i][j] by {
            lemma_sum2(Seq::new(2, |k: int| m[i][k].mul_spec(adj[k][j])));
            if i == 0 && j == 0 {
                lemma_mul_neg(b, c);
            } else if i == 0 && j == 1 {
                lemma_mul_neg(a, b);
                lemma_mul_comm(b, a);
                lemma_cancel(a.mul_spec(b), b.mul_spec(a));
            } else if i == 1 && j == 0 {
                lemma_mul_neg(e, c);
                lemma_mul_comm(c, e);
                lemma_cancel(c.mul_spec(e), e.mul_spec(c));
            } else {
                lemma_mul_neg(c, b);
                lemma_mul_comm(c, b);
                lemma_mul_comm(e, a);
                lemma_add_comm(c.mul_spec(b).neg_spec(), e.mul_spec(a));
            }
        }
        assert forall|i: int, j: int| 0 <= i < 2 && 0 <= j < 2 implies right[i][j]
            == target[i][j] by {
            lemma_sum2(Seq::new(2, |k: int| adj[i][k].mul_spec(m[k][j])));
            if i == 0 && j == 0 {
                lemma_mul_neg(c, b);
                lemma_mul_comm(c, b);
                lemma_mul_comm(e, a);
            } else if i == 0 && j == 1 {
                lemma_mul_neg(e, b);
                lemma_mul_comm(e, b);
                lemma_cancel(b.mul_spec(e), e.mul_spec(b));
                lemma_add_comm(e.mul_spec(b), e.mul_spec(b).neg_spec());
            } else if i == 1 && j == 0 {
                lemma_mul_neg(a, c);
                lemma_mul_comm(a, c);
                lemma_cancel(a.mul_spec(c), a.mul_spec(c));
            } else {
                lemma_mul_neg(b, c);
                lemma_add_comm(b.mul_spec(c).neg_spec(), a.mul_spec(e));
            }
        }
        assert(left =~~= target);
        assert(right =~~= target);
    }
}

} // verus!
