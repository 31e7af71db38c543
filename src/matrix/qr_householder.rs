use vstd::prelude::*;

use crate::matrix::diag::min_of;
use crate::matrix::herm::{Herm, herm_of};
use crate::matrix::mul::{MMul, mat_mul};
use crate::matrix::{
    Matrix, SquareMatrix, from_fn, get, has_shape, identity_of, is_matrix, matrix_init, rows_of,
};
use crate::scalar::{Scalar, lemma_sum_take, sum};

verus! {

/// The first column of `a`, as a vector.
pub open spec fn lead_column<T>(a: Seq<Seq<T>>) -> Seq<T> {
    Seq::new(a.len(), |r: int| a[r][0])
}

/// The Euclidean norm `‖x‖`: the square root of the sum of the squared absolute values.
pub open spec fn norm_of<T: Scalar>(x: Seq<T>) -> T {
    sum(x.map_values(|e: T| e.norm_sqr_spec())).sqrt_spec()
}

/// The reflection scalar `alpha = -e^{i·arg(x₀)}·‖x‖`, which points away from `x₀`.
pub open spec fn alpha_of<T: Scalar>(x: Seq<T>) -> T {
    x[0].phase_spec().neg_spec().mul_spec(norm_of(x))
}

/// The unit vector `v = u / ‖u‖`, where `u` is `x` with `alpha` taken from its first entry.
pub open spec fn householder_vector<T: Scalar>(x: Seq<T>) -> Seq<T> {
    let u = x.update(0, x[0].sub_spec(alpha_of(x)));
    let n = norm_of(u);
    u.map_values(|e: T| e.div_spec(n))
}

/// The reflector `I - 2·v·vᴴ`.
pub open spec fn reflector_of<T: Scalar>(v: Seq<T>) -> Seq<Seq<T>> {
    let two = T::one_spec().add_spec(T::one_spec());
    from_fn(
        v.len() as int,
        v.len() as int,
        |r: int, c: int|
            (if r == c { T::one_spec() } else { T::zero_spec() }).sub_spec(
                v[r].mul_spec(v[c].conj_spec()).mul_spec(two),
            ),
    )
}

/// The `h`×`h` matrix that is the identity outside the trailing block from `(t, t)` on,
/// and holds `qs` inside it.
pub open spec fn embed_of<T: Scalar>(qs: Seq<Seq<T>>, t: int, h: int) -> Seq<Seq<T>> {
    from_fn(
        h,
        h,
        |r: int, c: int|
            if r >= t && c >= t {
                qs[r - t][c - t]
            } else if r == c {
                T::one_spec()
            } else {
                T::zero_spec()
            },
    )
}

/// `m` without its first row and first column.
pub open spec fn drop_lead<T>(m: Seq<Seq<T>>) -> Seq<Seq<T>> {
    from_fn(m.len() - 1, m[0].len() - 1, |r: int, c: int| m[r + 1][c + 1])
}

/// The number of reflections: one for each column, but none for the last row.
pub open spec fn qr_steps<T>(m: Seq<Seq<T>>) -> int {
    min_of(m[0].len() as int, m.len() - 1)
}

/// The reflector built from the first column of `a`.
pub open spec fn step_reflector<T: Scalar>(a: Seq<Seq<T>>) -> Seq<Seq<T>> {
    reflector_of(householder_vector(lead_column(a)))
}

/// The trailing block still to be reduced after `k` reflections.
pub open spec fn trailing_block<T: Scalar>(m: Seq<Seq<T>>, k: nat) -> Seq<Seq<T>>
    decreases k,
{
    if k == 0 {
        m
    } else {
        let a = trailing_block(m, (k - 1) as nat);
        drop_lead(mat_mul(step_reflector(a), a))
    }
}

/// The unitary factor accumulated over the first `k` reflections.
pub open spec fn accumulated_q<T: Scalar>(m: Seq<Seq<T>>, k: nat) -> Seq<Seq<T>>
    decreases k,
{
    if k == 0 {
        identity_of::<T>(m.len() as int)
    } else {
        let qs = step_reflector(trailing_block(m, (k - 1) as nat));
        mat_mul(accumulated_q(m, (k - 1) as nat), embed_of(qs, k - 1, m.len() as int))
    }
}

/// The unitary factor `Q` of the Householder decomposition.
pub open spec fn q_of<T: Scalar>(m: Seq<Seq<T>>) -> Seq<Seq<T>> {
    accumulated_q(m, qr_steps(m) as nat)
}

/// `m` with every entry strictly below the diagonal set to zero.
pub open spec fn zero_below<T: Scalar>(m: Seq<Seq<T>>) -> Seq<Seq<T>> {
    from_fn(
        m.len() as int,
        m[0].len() as int,
        |i: int, j: int|
            if i > j {
                T::zero_spec()
            } else {
                m[i][j]
            },
    )
}

/// The upper-triangular factor `R = Qᴴ·A`, cleared below the diagonal.
pub open spec fn r_of<T: Scalar>(m: Seq<Seq<T>>) -> Seq<Seq<T>> {
    zero_below(mat_mul(herm_of(q_of(m)), m))
}

/// The first column of `a`.
fn lead_column_of<T: Scalar>(a: &Vec<Vec<T>>) -> (x: Vec<T>)
    requires
        is_matrix(rows_of(a)),
    ensures
        x@ == lead_column(rows_of(a)),
{
    let n = a.len();
    let mut x: Vec<T> = Vec::new();
    let mut r: usize = 0;
    while r < n
        invariant
            is_matrix(rows_of(a)),
            n == rows_of(a).len(),
            r <= n,
            x@ =~= lead_column(rows_of(a)).take(r as int),
        decreases n - r,
    {
        assert(rows_of(a)[r as int].len() == rows_of(a)[0].len());
        x.push(get(a, r, 0));
        r = r + 1;
    }
    assert(x@ =~= lead_column(rows_of(a)));
    x
}

/// `‖x‖`.
fn norm<T: Scalar>(x: &Vec<T>) -> (n: T)
    ensures
        n == norm_of(x@),
{
    let ghost sq = x@.map_values(|e: T| e.norm_sqr_spec());
    let mut acc = T::zero();
    let mut k: usize = 0;
    assert(sq.take(0) =~= Seq::<T>::empty());
    while k < x.len()
        invariant
            sq == x@.map_values(|e: T| e.norm_sqr_spec()),
            k <= x@.len(),
            acc == sum(sq.take(k as int)),
        decreases x@.len() - k,
    {
        proof {
            lemma_sum_take(sq, k as int);
        }
        acc = acc.add(&x[k].norm_sqr());
        k = k + 1;
    }
    assert(sq.take(x@.len() as int) =~= sq);
    acc.sqrt()
}

/// The unit vector of the reflection that carries `x` onto its first axis.
fn householder<T: Scalar>(x: &Vec<T>) -> (v: Vec<T>)
    requires
        x@.len() >= 1,
    ensures
        v@ == householder_vector(x@),
{
    let x_abs = norm(x);
    let alpha = x[0].phase().neg().mul(&x_abs);
    let ghost target = x@.update(0, x@[0].sub_spec(alpha_of(x@)));
    let mut u: Vec<T> = Vec::new();
    u.push(x[0].sub(&alpha));
    let mut k: usize = 1;
    while k < x.len()
        invariant
            1 <= k <= x@.len(),
            target == x@.update(0, x@[0].sub_spec(alpha_of(x@))),
            u@ =~= target.take(k as int),
        decreases x@.len() - k,
    {
        u.push(x[k]);
        k = k + 1;
    }
    assert(u@ =~= target);
    let u_abs = norm(&u);
    let mut v: Vec<T> = Vec::new();
    let mut k: usize = 0;
    while k < u.len()
        invariant
            k <= u@.len(),
            v@ =~= u@.map_values(|e: T| e.div_spec(u_abs)).take(k as int),
        decreases u@.len() - k,
    {
        v.push(u[k].div(&u_abs));
        k = k + 1;
    }
    assert(v@ =~= u@.map_values(|e: T| e.div_spec(u_abs)));
    v
}

/// `I - 2·v·vᴴ`.
fn reflector<T: Scalar>(v: &Vec<T>) -> (q: Vec<Vec<T>>)
    requires
        v@.len() >= 1,
    ensures
        rows_of(&q) == reflector_of(v@),
        is_matrix(rows_of(&q)),
{
    let n = v.len();
    let two = T::one().add(&T::one());
    let f = |r: usize, c: usize| -> (x: T)
        requires
            r < v@.len() && c < v@.len() && two == T::one_spec().add_spec(T::one_spec())
        ensures
            x == reflector_of(v@)[r as int][c as int]
        {
            let d = if r == c {
                T::one()
            } else {
                T::zero()
            };
            d.sub(&v[r].mul(&v[c].conj()).mul(&two))
        };
    let q = matrix_init(n, n, f);
    let ghost expected = reflector_of(v@);
    assert forall|i: int, j: int| 0 <= i < n && 0 <= j < n implies rows_of(&q)[i][j]
        == expected[i][j] by {
        assert(f.ensures((i as usize, j as usize), rows_of(&q)[i][j]));
    }
    assert(rows_of(&q) =~~= expected);
    q
}

/// The `h`×`h` matrix holding `qs` in its trailing block from `(t, t)` on.
fn embed<T: Scalar>(qs: &Vec<Vec<T>>, t: usize, h: usize) -> (q: Vec<Vec<T>>)
    requires
        t < h,
        has_shape(rows_of(qs), h - t, h - t),
    ensures
        rows_of(&q) == embed_of(rows_of(qs), t as int, h as int),
        is_matrix(rows_of(&q)),
{
    let f = |r: usize, c: usize| -> (x: T)
        requires
            r < h && c < h && t < h && has_shape(rows_of(qs), h - t, h - t)
        ensures
            x == embed_of(rows_of(qs), t as int, h as int)[r as int][c as int]
        {
            if r >= t && c >= t {
                get(qs, r - t, c - t)
            } else if r == c {
                T::one()
            } else {
                T::zero()
            }
        };
    let q = matrix_init(h, h, f);
    let ghost expected = embed_of(rows_of(qs), t as int, h as int);
    assert forall|i: int, j: int| 0 <= i < h && 0 <= j < h implies rows_of(&q)[i][j]
        == expected[i][j] by {
        assert(f.ensures((i as usize, j as usize), rows_of(&q)[i][j]));
    }
    assert(rows_of(&q) =~~= expected);
    q
}

/// `m` without its first row and first column.
fn without_lead<T: Scalar>(m: &Vec<Vec<T>>) -> (s: Vec<Vec<T>>)
    requires
        is_matrix(rows_of(m)),
    ensures
        rows_of(&s) == drop_lead(rows_of(m)),
        has_shape(rows_of(&s), rows_of(m).len() - 1, rows_of(m)[0].len() - 1),
{
    let h = m.len();
    let l = m[0].len();
    let f = |r: usize, c: usize| -> (x: T)
        requires
            is_matrix(rows_of(m)) && h == rows_of(m).len() && l == rows_of(m)[0].len() && r < h - 1
                && c < l - 1
        ensures
            x == rows_of(m)[r + 1][c + 1]
        {
            assert(rows_of(m)[r + 1].len() == l);
            get(m, r + 1, c + 1)
        };
    let s = matrix_init(h - 1, l - 1, f);
    let ghost expected = drop_lead(rows_of(m));
    assert forall|i: int, j: int| 0 <= i < h - 1 && 0 <= j < l - 1 implies rows_of(&s)[i][j]
        == expected[i][j] by {
        assert(f.ensures((i as usize, j as usize), rows_of(&s)[i][j]));
    }
    assert(rows_of(&s) =~~= expected);
    s
}

/// `m` with every entry strictly below the diagonal set to zero.
fn clear_below<T: Scalar>(m: &Vec<Vec<T>>) -> (s: Vec<Vec<T>>)
    requires
        is_matrix(rows_of(m)),
    ensures
        rows_of(&s) == zero_below(rows_of(m)),
        is_matrix(rows_of(&s)),
{
    let h = m.len();
    let l = m[0].len();
    let f = |r: usize, c: usize| -> (x: T)
        requires
            is_matrix(rows_of(m)) && h == rows_of(m).len() && l == rows_of(m)[0].len() && r < h && c < l
        ensures
            x == zero_below(rows_of(m))[r as int][c as int]
        {
            if r > c {
                T::zero()
            } else {
                assert(rows_of(m)[r as int].len() == l);
                get(m, r, c)
            }
        };
    let s = matrix_init(h, l, f);
    let ghost expected = zero_below(rows_of(m));
    assert forall|i: int, j: int| 0 <= i < h && 0 <= j < l implies rows_of(&s)[i][j]
        == expected[i][j] by {
        assert(f.ensures((i as usize, j as usize), rows_of(&s)[i][j]));
    }
    assert(rows_of(&s) =~~= expected);
    s
}

/// A copy of `m`.
fn copy_of<T: Scalar>(m: &Vec<Vec<T>>) -> (s: Vec<Vec<T>>)
    requires
        is_matrix(rows_of(m)),
    ensures
        rows_of(&s) == rows_of(m),
{
    let h = m.len();
    let l = m[0].len();
    let f = |r: usize, c: usize| -> (x: T)
        requires
            is_matrix(rows_of(m)) && h == rows_of(m).len() && l == rows_of(m)[0].len() && r < h && c < l
        ensures
            x == rows_of(m)[r as int][c as int]
        {
            assert(rows_of(m)[r as int].len() == l);
            get(m, r, c)
        };
    let s = matrix_init(h, l, f);
    assert forall|i: int, j: int| 0 <= i < h && 0 <= j < l implies rows_of(&s)[i][j]
        == rows_of(m)[i][j] by {
        assert(f.ensures((i as usize, j as usize), rows_of(&s)[i][j]));
    }
    assert(rows_of(&s) =~~= rows_of(m));
    s
}

/// `q` and `r` are the Householder factors of `m`: `q` square, `r` of the shape of `m`
/// with only zeros below its diagonal.
pub open spec fn factors_of<T: Scalar>(m: Seq<Seq<T>>, q: Seq<Seq<T>>, r: Seq<Seq<T>>) -> bool {
    &&& q == q_of(m)
    &&& r == r_of(m)
    &&& has_shape(q, m.len() as int, m.len() as int)
    &&& has_shape(r, m.len() as int, m[0].len() as int)
    &&& forall|i: int, j: int| 0 <= j < m[0].len() && j < i < m.len() ==> #[trigger] r[i][j] == T::zero_spec()
}

pub trait QRHouseholder<T: Scalar>: Matrix<T> {
    /// The Householder QR decomposition `A = QR` of a matrix with at least as many rows as
    /// columns: `Q` is square, `R` has the shape of `A` and only zeros below its diagonal.
    fn qr_householder(&self) -> (r: (Self, Self))
        requires
            is_matrix(self.entries()),
            self.entries().len() >= self.entries()[0].len(),
        ensures
            r.0.entries() == q_of(self.entries()),
            r.1.entries() == r_of(self.entries()),
            has_shape(r.0.entries(), self.entries().len() as int, self.entries().len() as int),
            has_shape(r.1.entries(), self.entries().len() as int, self.entries()[0].len() as int),
            forall|i: int, j: int|
                0 <= j < self.entries()[0].len() && j < i < self.entries().len()
                    ==> #[trigger] r.1.entries()[i][j] == T::zero_spec(),
    ;
}

/// The Householder decomposition of `m`.
fn decompose<T: Scalar>(m: &Vec<Vec<T>>) -> (r: (Vec<Vec<T>>, Vec<Vec<T>>))
    requires
        is_matrix(rows_of(m)),
        rows_of(m).len() >= rows_of(m)[0].len(),
    ensures
        factors_of(rows_of(m), rows_of(&r.0), rows_of(&r.1)),
{
    let h = m.len();
    let l = m[0].len();
    let steps = if l <= h - 1 {
        l
    } else {
        h - 1
    };
    let mut a: Vec<Vec<T>> = copy_of(m);
    let mut q: Vec<Vec<T>> = Vec::<Vec<T>>::identity(h);
    let mut t: usize = 0;
    while t < steps
        invariant
            is_matrix(rows_of(m)),
            h == rows_of(m).len(),
            l == rows_of(m)[0].len(),
            h >= l,
            steps == qr_steps(rows_of(m)),
            t <= steps,
            rows_of(&a) == trailing_block(rows_of(m), t as nat),
            rows_of(&q) == accumulated_q(rows_of(m), t as nat),
            has_shape(rows_of(&a), h - t, l - t),
            has_shape(rows_of(&q), h as int, h as int),
        decreases steps - t,
    {
        let x = lead_column_of(&a);
        let v = householder(&x);
        let qs = reflector(&v);
        let qt = embed(&qs, t, h);
        q = q.mul(&qt);
        let p = qs.mul(&a);
        a = without_lead(&p);
        t = t + 1;
    }
    let qh = q.herm();
    let full = qh.mul(m);
    let r = clear_below(&full);
    (q, r)
}

impl<T: Scalar> QRHouseholder<T> for Vec<Vec<T>> {
    fn qr_householder(&self) -> (r: (Self, Self)) {
        decompose(self)
    }
}

} // verus!
