use vstd::prelude::*;

use crate::scalar::Scalar;

pub mod add;
pub mod adj;
pub mod cofactor;
pub mod conj;
pub mod det;
pub mod diag;
pub mod eig;
pub mod div;
pub mod herm;
pub mod inv;
pub mod kronecker;
pub mod minor;
pub mod qr_householder;
pub mod mul;
pub mod sub;
pub mod submatrix;
pub mod trace;
pub mod transpose;

verus! {

/// The entries of a matrix held as a vector of rows.
pub open spec fn rows_of<T>(m: &Vec<Vec<T>>) -> Seq<Seq<T>> {
    m@.map_values(|r: Vec<T>| r@)
}

/// A matrix of at least one row and one column, every row as long as the first.
pub open spec fn is_matrix<T>(m: Seq<Seq<T>>) -> bool {
    &&& m.len() >= 1
    &&& m[0].len() >= 1
    &&& forall|i: int| 0 <= i < m.len() ==> #[trigger] m[i].len() == m[0].len()
}

/// A matrix with as many columns as rows.
pub open spec fn is_square<T>(m: Seq<Seq<T>>) -> bool {
    is_matrix(m) && m[0].len() == m.len()
}

/// `m` has `h` rows of `l` entries each.
pub open spec fn has_shape<T>(m: Seq<Seq<T>>, h: int, l: int) -> bool {
    &&& m.len() == h
    &&& forall|i: int| 0 <= i < h ==> #[trigger] m[i].len() == l
}

/// The number of rows.
pub open spec fn height_of<T>(m: Seq<Seq<T>>) -> int {
    m.len() as int
}

/// The number of columns.
pub open spec fn length_of<T>(m: Seq<Seq<T>>) -> int {
    m[0].len() as int
}

/// The `h`×`l` matrix whose entry at row `i`, column `j` is `f(i, j)`.
pub open spec fn from_fn<T>(h: int, l: int, f: spec_fn(int, int) -> T) -> Seq<Seq<T>> {
    Seq::new(h as nat, |i: int| Seq::new(l as nat, |j: int| f(i, j)))
}

/// The `n`×`n` identity matrix.
pub open spec fn identity_of<T: Scalar>(n: int) -> Seq<Seq<T>> {
    from_fn(n, n, |i: int, j: int| if i == j { T::one_spec() } else { T::zero_spec() })
}

/// Builds an `h`×`l` matrix whose entry at row `r`, column `c` is `initializer(r, c)`.
/// The cells are filled row by row.
pub fn matrix_init<T, F: Fn(usize, usize) -> T>(h: usize, l: usize, initializer: F) -> (m: Vec<Vec<T>>)
    requires
        forall|r: usize, c: usize| r < h && c < l ==> #[trigger] initializer.requires((r, c)),
    ensures
        has_shape(rows_of(&m), h as int, l as int),
        forall|r: int, c: int|
            0 <= r < h && 0 <= c < l ==> #[trigger] initializer.ensures(
                (r as usize, c as usize),
                rows_of(&m)[r][c],
            ),
{
    let mut m: Vec<Vec<T>> = Vec::new();
    let mut r: usize = 0;
    while r < h
        invariant
            r <= h,
            m@.len() == r,
            forall|i: int| 0 <= i < r ==> #[trigger] m@[i]@.len() == l,
            forall|i: usize, c: usize|
                i < r && c < l ==> #[trigger] initializer.ensures((i, c), m@[i as int]@[c as int]),
            forall|i: usize, c: usize| i < h && c < l ==> #[trigger] initializer.requires((i, c)),
        decreases h - r,
    {
        let mut row: Vec<T> = Vec::new();
        let mut c: usize = 0;
        while c < l
            invariant
                r < h,
                c <= l,
                row@.len() == c,
                forall|j: usize| j < c ==> #[trigger] initializer.ensures((r, j), row@[j as int]),
                forall|i: usize, j: usize| i < h && j < l ==> #[trigger] initializer.requires((i, j)),
            decreases l - c,
        {
            let x = initializer(r, c);
            row.push(x);
            c = c + 1;
        }
        m.push(row);
        r = r + 1;
    }
    proof {
        assert forall|i: int, j: int| 0 <= i < h && 0 <= j < l implies #[trigger] initializer.ensures(
            (i as usize, j as usize),
            rows_of(&m)[i][j],
        ) by {
            assert(initializer.ensures((i as usize, j as usize), m@[(i as usize) as int]@[(j as usize) as int]));
        }
    }
    m
}

/// The entry at row `r`, column `c`.
pub fn get<T: Copy>(m: &Vec<Vec<T>>, r: usize, c: usize) -> (x: T)
    requires
        r < rows_of(m).len(),
        c < rows_of(m)[r as int].len(),
    ensures
        x == rows_of(m)[r as int][c as int],
{
    m[r][c]
}

/// A dense matrix with a fixed number of rows and columns.
pub trait Matrix<T: Scalar>: Sized {
    /// The entries, row by row.
    spec fn entries(&self) -> Seq<Seq<T>>;

    /// The number of rows.
    fn height(&self) -> (r: usize)
        requires
            is_matrix(self.entries()),
        ensures
            r == height_of(self.entries()),
    ;

    /// The number of columns.
    fn length(&self) -> (r: usize)
        requires
            is_matrix(self.entries()),
        ensures
            r == length_of(self.entries()),
    ;

    /// The `h`×`l` matrix of zeros.
    fn empty(h: usize, l: usize) -> (r: Self)
        requires
            h >= 1,
            l >= 1,
        ensures
            r.entries() == from_fn(h as int, l as int, |i: int, j: int| T::zero_spec()),
            is_matrix(r.entries()),
    ;
}

/// A matrix with as many rows as columns.
pub trait SquareMatrix<T: Scalar>: Matrix<T> {
    /// The `n`×`n` identity matrix.
    fn identity(n: usize) -> (r: Self)
        requires
            n >= 1,
        ensures
            r.entries() == identity_of::<T>(n as int),
            is_square(r.entries()),
    ;
}

impl<T: Scalar> Matrix<T> for Vec<Vec<T>> {
    open spec fn entries(&self) -> Seq<Seq<T>> {
        rows_of(self)
    }

    fn height(&self) -> (r: usize) {
        self.len()
    }

    fn length(&self) -> (r: usize) {
        self[0].len()
    }

    fn empty(h: usize, l: usize) -> (r: Self) {
        let f = |r: usize, c: usize| -> (x: T) ensures x == T::zero_spec() { T::zero() };
        let m = matrix_init(h, l, f);
        assert forall|i: int, j: int| 0 <= i < h && 0 <= j < l implies rows_of(&m)[i][j] == T::zero_spec() by {
            assert(f.ensures((i as usize, j as usize), rows_of(&m)[i][j]));
        }
        assert(rows_of(&m) =~~= from_fn(h as int, l as int, |i: int, j: int| T::zero_spec()));
        m
    }
}

impl<T: Scalar> SquareMatrix<T> for Vec<Vec<T>> {
    fn identity(n: usize) -> (r: Self) {
        let f = |r: usize, c: usize| -> (x: T)
            ensures
                x == (if r == c { T::one_spec() } else { T::zero_spec() })
            {
                if r == c {
                    T::one()
                } else {
                    T::zero()
                }
            };
        let m = matrix_init(n, n, f);
        assert forall|i: int, j: int| 0 <= i < n && 0 <= j < n implies rows_of(&m)[i][j] == identity_of::<T>(n as int)[i][j] by {
            assert(f.ensures((i as usize, j as usize), rows_of(&m)[i][j]));
        }
        assert(rows_of(&m) =~~= identity_of::<T>(n as int));
        m
    }
}

} // verus!
