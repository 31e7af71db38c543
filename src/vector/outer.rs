use vstd::prelude::*;

use crate::matrix::{from_fn, has_shape, matrix_init, rows_of};
use crate::scalar::Scalar;
use crate::vector::Vector;

verus! {

/// The outer product `u ⊗ v`: entry `(r, c)` is `u[r]·v[c]`.
pub open spec fn outer_of<T: Scalar>(u: Seq<T>, v: Seq<T>) -> Seq<Seq<T>> {
    from_fn(u.len() as int, v.len() as int, |r: int, c: int| u[r].mul_spec(v[c]))
}

pub trait Outer<T: Scalar, Rhs: Vector<T>>: Vector<T> {
    /// The outer product `u ⊗ v`, a matrix with a row for each element of `u`.
    fn outer(self, rhs: Rhs) -> (r: Vec<Vec<T>>)
        ensures
            rows_of(&r) == outer_of(self.elements(), rhs.elements()),
            has_shape(rows_of(&r), self.elements().len() as int, rhs.elements().len() as int),
    ;
}

impl<T: Scalar, const H: usize, const L: usize> Outer<T, [T; L]> for [T; H] {
    fn outer(self, rhs: [T; L]) -> (r: Vec<Vec<T>>) {
        let f = |r: usize, c: usize| -> (x: T)
            requires
                r < H && c < L
            ensures
                x == self@[r as int].mul_spec(rhs@[c as int])
            { self[r].mul(&rhs[c]) };
        let m = matrix_init(H, L, f);
        let ghost expected = outer_of(self@, rhs@);
        assert forall|i: int, j: int| 0 <= i < H && 0 <= j < L implies rows_of(&m)[i][j]
            == expected[i][j] by {
            assert(f.ensures((i as usize, j as usize), rows_of(&m)[i][j]));
        }
        assert(rows_of(&m) =~~= expected);
        m
    }
}

} // verus!
