use vstd::prelude::*;

use crate::matrix::submatrix::{Exclude, submatrix_of};
use crate::matrix::{SquareMatrix, from_fn, get, is_square, matrix_init, rows_of};
use crate::scalar::{
    Scalar, lemma_add_assoc, lemma_add_comm, lemma_add_zero, lemma_mul_assoc, lemma_mul_comm,
    lemma_mul_sub, lemma_neg_sum, lemma_sub_def, ring_laws,
};

verus! {

/// The index of the original line that lands at position `i` once line `k` is taken out,
/// the remaining lines keeping their order.
pub open spec fn skip(i: int, k: int) -> int {
    if i < k {
        i
    } else {
        i + 1
    }
}

/// `m` without row `r` and column `c`, the remaining rows and columns in their order.
pub open spec fn deleted_of<T>(m: Seq<Seq<T>>, r: int, c: int) -> Seq<Seq<T>> {
    from_fn(m.len() - 1, m[0].len() - 1, |i: int, j: int| m[skip(i, r)][skip(j, c)])
}

/// The determinant: the single entry for size 1, `a₀₀·a₁₁ - a₀₁·a₁₀` for size 2, and for
/// larger sizes the cofactor expansion down the first column,
/// `Σᵢ (-1)ⁱ·mᵢ₀·|m without row i and column 0|`.
pub open spec fn det_of<T: Scalar>(m: Seq<Seq<T>>) -> T
    decreases m.len(), m.len() + 1,
{
    if m.len() <= 1 {
        m[0][0]
    } else if m.len() == 2 {
        m[0][0].mul_spec(m[1][1]).sub_spec(m[0][1].mul_spec(m[1][0]))
    } else {
        expansion(m, m.len() as int)
    }
}

/// The first `k` terms of the expansion down the first column, summed from the left
/// starting at zero: terms of even row are added, terms of odd row subtracted.
pub open spec fn expansion<T: Scalar>(m: Seq<Seq<T>>, k: int) -> T
    decreases m.len(), k,
{
    if k <= 0 || m.len() == 0 {
        T::zero_spec()
    } else {
        let term = m[k - 1][0].mul_spec(det_of(deleted_of(m, k - 1, 0)));
        if (k - 1) % 2 == 0 {
            expansion(m, k - 1).add_spec(term)
        } else {
            expansion(m, k - 1).sub_spec(term)
        }
    }
}

/// The determinant of the cyclically ordered submatrix without row `r` and column `c`.
pub open spec fn minor_of<T: Scalar>(m: Seq<Seq<T>>, r: int, c: int) -> T {
    det_of(submatrix_of(m, Exclude::Cell(r as usize, c as usize)))
}

/// The determinant of `m` without row `r` and column `c`, the order kept.
pub open spec fn deleted_minor_of<T: Scalar>(m: Seq<Seq<T>>, r: int, c: int) -> T {
    det_of(deleted_of(m, r, c))
}

/// `m` without row `r` and column `c`, the remaining rows and columns in their order.
pub(crate) fn delete<T: Scalar>(m: &Vec<Vec<T>>, r: usize, c: usize) -> (s: Vec<Vec<T>>)
    requires
        is_square(rows_of(m)),
        rows_of(m).len() >= 2,
        r < rows_of(m).len(),
        c < rows_of(m).len(),
    ensures
        rows_of(&s) == deleted_of(rows_of(m), r as int, c as int),
        is_square(rows_of(&s)),
{
    let n = m.len();
    let f = |i: usize, j: usize| -> (x: T)
        requires
            is_square(rows_of(m)) && n == rows_of(m).len() && i < n - 1 && j < n - 1
        ensures
            x == rows_of(m)[skip(i as int, r as int)][skip(j as int, c as int)]
        {
            let ri = if i < r {
                i
            } else {
                i + 1
            };
            let cj = if j < c {
                j
            } else {
                j + 1
            };
            assert(rows_of(m)[ri as int].len() == n);
            get(m, ri, cj)
        };
    let s = matrix_init(n - 1, n - 1, f);
    let ghost expected = deleted_of(rows_of(m), r as int, c as int);
    assert forall|i: int, j: int| 0 <= i < n - 1 && 0 <= j < n - 1 implies rows_of(&s)[i][j]
        == expected[i][j] by {
        assert(f.ensures((i as usize, j as usize), rows_of(&s)[i][j]));
    }
    assert(rows_of(&s) =~~= expected);
    s
}

/// Computes [`det_of`] by recursion on the size.
pub(crate) fn det_rec<T: Scalar>(m: &Vec<Vec<T>>) -> (d: T)
    requires
        is_square(rows_of(m)),
    ensures
        d == det_of(rows_of(m)),
    decreases m@.len(),
{
    let n = m.len();
    if n == 1 {
        get(m, 0, 0)
    } else if n == 2 {
        let a = get(m, 0, 0).mul(&get(m, 1, 1));
        let b = get(m, 0, 1).mul(&get(m, 1, 0));
        a.sub(&b)
    } else {
        let mut acc = T::zero();
        let mut i: usize = 0;
        while i < n
            invariant
                n == m@.len(),
                n >= 3,
                is_square(rows_of(m)),
                i <= n,
                acc == expansion(rows_of(m), i as int),
            decreases n - i,
        {
            let sub = delete(m, i, 0);
            let minor = det_rec(&sub);
            let term = get(m, i, 0).mul(&minor);
            if i % 2 == 0 {
                acc = acc.add(&term);
            } else {
                acc = acc.sub(&term);
            }
            i = i + 1;
        }
        acc
    }
}

pub trait Det<T: Scalar>: SquareMatrix<T> {
    /// The determinant `|A|`.
    fn det(&self) -> (r: T)
        requires
            is_square(self.entries()),
        ensures
            r == det_of(self.entries()),
    ;
}

impl<T: Scalar> Det<T> for Vec<Vec<T>> {
    fn det(&self) -> (r: T) {
        det_rec(self)
    }
}

/// `m[0][i]·m[1][j]·m[2][k]`, multiplied from the left.
pub open spec fn product3<T: Scalar>(m: Seq<Seq<T>>, i: int, j: int, k: int) -> T {
    m[0][i].mul_spec(m[1][j]).mul_spec(m[2][k])
}

/// The Leibniz formula for matrices of size one to three: the sum over the permutations
/// `σ` of the products `m[0][σ(0)]·m[1][σ(1)]·…`, negated for the odd permutations.
pub open spec fn leibniz_of<T: Scalar>(m: Seq<Seq<T>>) -> T {
    if m.len() <= 1 {
        m[0][0]
    } else if m.len() == 2 {
        m[0][0].mul_spec(m[1][1]).add_spec(m[0][1].mul_spec(m[1][0]).neg_spec())
    } else {
        product3(m, 0, 1, 2).add_spec(product3(m, 0, 2, 1).neg_spec()).add_spec(
            product3(m, 1, 0, 2).neg_spec(),
        ).add_spec(product3(m, 1, 2, 0)).add_spec(product3(m, 2, 0, 1)).add_spec(
            product3(m, 2, 1, 0).neg_spec(),
        )
    }
}

/// Over a commutative ring, the determinant of a matrix of size one, two or three is the
/// one that the Leibniz formula gives.
pub proof fn lemma_det_leibniz<T: Scalar>(m: Seq<Seq<T>>)
    requires
        ring_laws::<T>(),
        is_square(m),
        m.len() <= 3,
    ensures
        det_of(m) == leibniz_of(m),
{
    if m.len() == 2 {
        lemma_sub_def(m[0][0].mul_spec(m[1][1]), m[0][1].mul_spec(m[1][0]));
    } else if m.len() == 3 {
        let (a00, a01, a02) = (m[0][0], m[0][1], m[0][2]);
        let (a10, a11, a12) = (m[1][0], m[1][1], m[1][2]);
        let (a20, a21, a22) = (m[2][0], m[2][1], m[2][2]);
        let s0 = deleted_of(m, 0, 0);
        let s1 = deleted_of(m, 1, 0);
        let s2 = deleted_of(m, 2, 0);
        assert(det_of(s0) == a11.mul_spec(a22).sub_spec(a12.mul_spec(a21)));
        assert(det_of(s1) == a01.mul_spec(a22).sub_spec(a02.mul_spec(a21)));
        assert(det_of(s2) == a01.mul_spec(a12).sub_spec(a02.mul_spec(a11)));
        let t0 = a00.mul_spec(det_of(s0));
        let t1 = a10.mul_spec(det_of(s1));
        let t2 = a20.mul_spec(det_of(s2));
        assert(expansion(m, 0) == T::zero_spec());
        assert(expansion(m, 1) == T::zero_spec().add_spec(t0));
        assert(expansion(m, 2) == expansion(m, 1).sub_spec(t1));
        assert(det_of(m) == expansion(m, 2).add_spec(t2));
        lemma_add_zero(t0);
        lemma_sub_def(t0, t1);
        let prod012 = product3(m, 0, 1, 2);
        let prod021 = product3(m, 0, 2, 1);
        let prod102 = product3(m, 1, 0, 2);
        let prod120 = product3(m, 1, 2, 0);
        let prod201 = product3(m, 2, 0, 1);
        let prod210 = product3(m, 2, 1, 0);
        // Each term of the expansion splits into two of the six products.
        lemma_mul_sub(a00, a11.mul_spec(a22), a12.mul_spec(a21));
        lemma_mul_assoc(a00, a11, a22);
        lemma_mul_assoc(a00, a12, a21);
        assert(t0 == prod012.add_spec(prod021.neg_spec()));
        lemma_mul_sub(a10, a01.mul_spec(a22), a02.mul_spec(a21));
        lemma_mul_assoc(a10, a01, a22);
        lemma_mul_comm(a10, a01);
        lemma_mul_assoc(a10, a02, a21);
        lemma_mul_comm(a10, a02);
        assert(t1 == prod102.add_spec(prod201.neg_spec()));
        lemma_neg_sum(prod102, prod201);
        lemma_mul_sub(a20, a01.mul_spec(a12), a02.mul_spec(a11));
        lemma_mul_comm(a20, a01.mul_spec(a12));
        lemma_mul_comm(a20, a02.mul_spec(a11));
        assert(t2 == prod120.add_spec(prod210.neg_spec()));
        // Reorder the six products.
        let x = prod012.add_spec(prod021.neg_spec());
        let y = x.add_spec(prod102.neg_spec());
        lemma_add_assoc(x, prod102.neg_spec(), prod201);
        assert(x.add_spec(t1.neg_spec()) == y.add_spec(prod201));
        lemma_add_assoc(y.add_spec(prod201), prod120, prod210.neg_spec());
        lemma_add_assoc(y, prod201, prod120);
        lemma_add_comm(prod201, prod120);
        lemma_add_assoc(y, prod120, prod201);
    }
}

} // verus!
