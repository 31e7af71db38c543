use vstd::prelude::*;

use crate::matrix::{Matrix, from_fn, get, is_matrix, matrix_init, rows_of};
use crate::scalar::{Scalar, lemma_sum_take, sum};

verus! {

/// The matrix product `a·b`: entry `(i, j)` is `Σ_k a[i][k]·b[k][j]`.
pub open spec fn mat_mul<T: Scalar>(a: Seq<Seq<T>>, b: Seq<Seq<T>>) -> Seq<Seq<T>> {
    from_fn(
        a.len() as int,
        b[0].len() as int,
        |i: int, j: int| sum(Seq::new(a[0].len(), |k: int| a[i][k].mul_spec(b[k][j]))),
    )
}

/// Every entry of `m` times the scalar `k`.
pub open spec fn scale_of<T: Scalar>(m: Seq<Seq<T>>, k: T) -> Seq<Seq<T>> {
    from_fn(m.len() as int, m[0].len() as int, |i: int, j: int| m[i][j].mul_spec(k))
}

/// Whether `a·b` is defined: as many columns in `a` as rows in `b`.
pub open spec fn multipliable<T>(a: Seq<Seq<T>>, b: Seq<Seq<T>>) -> bool {
    is_matrix(a) && is_matrix(b) && a[0].len() == b.len()
}

/// Entry `(i, j)` of `a·b`.
fn product_entry<T: Scalar>(a: &Vec<Vec<T>>, b: &Vec<Vec<T>>, i: usize, j: usize) -> (x: T)
    requires
        multipliable(rows_of(a), rows_of(b)),
        i < rows_of(a).len(),
        j < rows_of(b)[0].len(),
    ensures
        x == sum(
            Seq::new(rows_of(a)[0].len(), |k: int| rows_of(a)[i as int][k].mul_spec(rows_of(b)[k][j as int])),
        ),
{
    let l = a[0].len();
    let ghost terms = Seq::new(
        rows_of(a)[0].len(),
        |k: int| rows_of(a)[i as int][k].mul_spec(rows_of(b)[k][j as int]),
    );
    let mut acc = T::zero();
    let mut k: usize = 0;
    assert(terms.take(0) =~= Seq::<T>::empty());
    while k < l
        invariant
            multipliable(rows_of(a), rows_of(b)),
            i < rows_of(a).len(),
            j < rows_of(b)[0].len(),
            l == rows_of(a)[0].len(),
            terms == Seq::new(
                rows_of(a)[0].len(),
                |k: int| rows_of(a)[i as int][k].mul_spec(rows_of(b)[k][j as int]),
            ),
            k <= l,
            acc == sum(terms.take(k as int)),
        decreases l - k,
    {
        assert(rows_of(a)[i as int].len() == l);
        assert(rows_of(b)[k as int].len() == rows_of(b)[0].len());
        let t = get(a, i, k).mul(&get(b, k, j));
        proof {
            lemma_sum_take(terms, k as int);
        }
        acc = acc.add(&t);
        k = k + 1;
    }
    assert(terms.take(l as int) =~= terms);
    acc
}

pub trait MMul<T: Scalar, Rhs>: Matrix<T> {
    /// Whether `self · rhs` is defined.
    spec fn admits(&self, rhs: &Rhs) -> bool;

    /// The entries of `self · rhs`.
    spec fn product(&self, rhs: &Rhs) -> Seq<Seq<T>>;

    /// The product with a matrix (`AB`) or with a scalar (`Ab`).
    fn mul(&self, rhs: &Rhs) -> (r: Self)
        requires
            self.admits(rhs),
        ensures
            r.entries() == self.product(rhs),
            is_matrix(r.entries()),
    ;
}

impl<T: Scalar> MMul<T, Vec<Vec<T>>> for Vec<Vec<T>> {
    open spec fn admits(&self, rhs: &Vec<Vec<T>>) -> bool {
        multipliable(rows_of(self), rows_of(rhs))
    }

    open spec fn product(&self, rhs: &Vec<Vec<T>>) -> Seq<Seq<T>> {
        mat_mul(rows_of(self), rows_of(rhs))
    }

    fn mul(&self, rhs: &Vec<Vec<T>>) -> (r: Self) {
        let h = self.len();
        let l2 = rhs[0].len();
        let f = |i: usize, j: usize| -> (x: T)
            requires
                multipliable(rows_of(self), rows_of(rhs)) && i < rows_of(self).len() && j < rows_of(
                    rhs,
                )[0].len()
            ensures
                x == mat_mul(rows_of(self), rows_of(rhs))[i as int][j as int]
            { product_entry(self, rhs, i, j) };
        let m = matrix_init(h, l2, f);
        let ghost expected = mat_mul(rows_of(self), rows_of(rhs));
        assert forall|i: int, j: int| 0 <= i < h && 0 <= j < l2 implies rows_of(&m)[i][j]
            == expected[i][j] by {
            assert(f.ensures((i as usize, j as usize), rows_of(&m)[i][j]));
        }
        assert(rows_of(&m) =~~= expected);
        m
    }
}

impl<T: Scalar> MMul<T, T> for Vec<Vec<T>> {
    open spec fn admits(&self, rhs: &T) -> bool {
        is_matrix(rows_of(self))
    }

    open spec fn product(&self, rhs: &T) -> Seq<Seq<T>> {
        scale_of(rows_of(self), *rhs)
    }

    fn mul(&self, rhs: &T) -> (r: Self) {
        let h = self.len();
        let l = self[0].len();
        let k = *rhs;
        let f = |i: usize, j: usize| -> (x: T)
            requires
                is_matrix(rows_of(self)) && i < rows_of(self).len() && j < rows_of(self)[0].len()
            ensures
                x == rows_of(self)[i as int][j as int].mul_spec(k)
            {
                assert(rows_of(self)[i as int].len() == rows_of(self)[0].len());
                get(self, i, j).mul(&k)
            };
        let m = matrix_init(h, l, f);
        let ghost expected = scale_of(rows_of(self), k);
        assert forall|i: int, j: int| 0 <= i < h && 0 <= j < l implies rows_of(&m)[i][j]
            == expected[i][j] by {
            assert(f.ensures((i as usize, j as usize), rows_of(&m)[i][j]));
        }
        assert(rows_of(&m) =~~= expected);
        m
    }
}

} // verus!
