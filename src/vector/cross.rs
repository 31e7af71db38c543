use vstd::prelude::*;

use crate::scalar::Scalar;
use crate::vector::{Vector, array_from_fn};

verus! {

/// The determinant `a·d - b·c` of `[[a, b], [c, d]]`.
pub open spec fn det2_of<T: Scalar>(a: T, b: T, c: T, d: T) -> T {
    a.mul_spec(d).sub_spec(b.mul_spec(c))
}

/// The cross product of two 3-vectors: element `i` is the 2×2 determinant of the
/// elements `i + 1` and `i + 2` (cyclically) of `u` over those of `v`.
pub open spec fn cross3_of<T: Scalar>(u: Seq<T>, v: Seq<T>) -> Seq<T> {
    Seq::new(
        3,
        |i: int| det2_of(u[(i + 1) % 3], u[(i + 2) % 3], v[(i + 1) % 3], v[(i + 2) % 3]),
    )
}

/// The 2×2 determinant of the elements `i + j` and `i + k` (cyclically) of `u` over those of `v`.
pub open spec fn pair7_of<T: Scalar>(u: Seq<T>, v: Seq<T>, i: int, j: int, k: int) -> T {
    det2_of(u[(i + j) % 7], u[(i + k) % 7], v[(i + j) % 7], v[(i + k) % 7])
}

/// The cross product of two 7-vectors: element `i` sums the determinants of the
/// offset pairs (1, 3), (2, 6) and (4, 5).
pub open spec fn cross7_of<T: Scalar>(u: Seq<T>, v: Seq<T>) -> Seq<T> {
    Seq::new(
        7,
        |i: int|
            pair7_of(u, v, i, 1, 3).add_spec(pair7_of(u, v, i, 2, 6)).add_spec(
                pair7_of(u, v, i, 4, 5),
            ),
    )
}

fn det2<T: Scalar>(a: T, b: T, c: T, d: T) -> (r: T)
    ensures
        r == det2_of(a, b, c, d),
{
    a.mul(&d).sub(&b.mul(&c))
}

pub trait Cross<T: Scalar>: Vector<T> {
    /// The cross product, as this vector size defines it.
    spec fn cross_of(&self, rhs: &Self) -> Seq<T>;

    /// The cross product `u×v` of a 3- or 7-dimensional vector pair.
    fn cross(self, rhs: Self) -> (r: Self)
        ensures
            r.elements() == self.cross_of(&rhs),
    ;
}

impl<T: Scalar> Cross<T> for [T; 3] {
    open spec fn cross_of(&self, rhs: &Self) -> Seq<T> {
        cross3_of(self@, rhs@)
    }

    fn cross(self, rhs: Self) -> (r: Self) {
        let r = [
            det2(self[1], self[2], rhs[1], rhs[2]),
            det2(self[2], self[0], rhs[2], rhs[0]),
            det2(self[0], self[1], rhs[0], rhs[1]),
        ];
        assert(r@ =~= cross3_of(self@, rhs@));
        r
    }
}

impl<T: Scalar> Cross<T> for [T; 7] {
    open spec fn cross_of(&self, rhs: &Self) -> Seq<T> {
        cross7_of(self@, rhs@)
    }

    fn cross(self, rhs: Self) -> (r: Self) {
        let f = |i: usize| -> (x: T)
            requires
                i < 7
            ensures
                x == cross7_of(self@, rhs@)[i as int]
            {
                let a = det2(self[(i + 1) % 7], self[(i + 3) % 7], rhs[(i + 1) % 7], rhs[(i + 3) % 7]);
                let b = det2(self[(i + 2) % 7], self[(i + 6) % 7], rhs[(i + 2) % 7], rhs[(i + 6) % 7]);
                let c = det2(self[(i + 4) % 7], self[(i + 5) % 7], rhs[(i + 4) % 7], rhs[(i + 5) % 7]);
                a.add(&b).add(&c)
            };
        let r: [T; 7] = array_from_fn(f);
        assert forall|i: int| 0 <= i < 7 implies r@[i] == cross7_of(self@, rhs@)[i] by {
            assert(f.ensures((i as usize,), r@[i]));
        }
        assert(r@ =~= cross7_of(self@, rhs@));
        r
    }
}

} // verus!
