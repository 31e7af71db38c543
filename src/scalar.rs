use vstd::prelude::*;

verus! {

/// The field that matrix entries are drawn from.
///
/// Every operation comes with a model (`*_spec`) that contracts elsewhere in this crate
/// speak of. Generic code treats each model as an abstract operation: nothing is assumed
/// of it beyond what a proof states as a hypothesis (see [`ring_laws`] and [`field_laws`]).
/// The default bodies of the models are placeholders that no generic proof sees; a type
/// that implements this trait in verified code overrides them with its own. A type that
/// keeps the defaults, as an implementation in unverified code does, gets no meaningful
/// model: the contracts of this crate then say nothing true of its values, and what they
/// state holds only of the computation's shape (which entries are combined, and how).
///
/// Real fields are used as complex fields whose values have no imaginary part:
/// `conj` is then the identity and `phase` is the sign.
pub trait Scalar: Sized + Copy {
    open spec fn zero_spec() -> Self {
        arbitrary()
    }

    open spec fn one_spec() -> Self {
        arbitrary()
    }

    open spec fn add_spec(self, o: Self) -> Self {
        self
    }

    open spec fn sub_spec(self, o: Self) -> Self {
        self
    }

    open spec fn mul_spec(self, o: Self) -> Self {
        self
    }

    open spec fn div_spec(self, o: Self) -> Self {
        self
    }

    open spec fn neg_spec(self) -> Self {
        self
    }

    open spec fn recip_spec(self) -> Self {
        self
    }

    open spec fn conj_spec(self) -> Self {
        self
    }

    open spec fn norm_sqr_spec(self) -> Self {
        self
    }

    open spec fn sqrt_spec(self) -> Self {
        self
    }

    open spec fn phase_spec(self) -> Self {
        self
    }

    open spec fn is_zero_spec(self) -> bool {
        false
    }

    /// The additive identity.
    fn zero() -> (r: Self)
        ensures
            r == Self::zero_spec(),
    ;

    /// The multiplicative identity.
    fn one() -> (r: Self)
        ensures
            r == Self::one_spec(),
    ;

    fn add(&self, o: &Self) -> (r: Self)
        ensures
            r == self.add_spec(*o),
    ;

    fn sub(&self, o: &Self) -> (r: Self)
        ensures
            r == self.sub_spec(*o),
    ;

    fn mul(&self, o: &Self) -> (r: Self)
        ensures
            r == self.mul_spec(*o),
    ;

    fn div(&self, o: &Self) -> (r: Self)
        ensures
            r == self.div_spec(*o),
    ;

    fn neg(&self) -> (r: Self)
        ensures
            r == self.neg_spec(),
    ;

    /// The multiplicative inverse, `1 / self`.
    fn recip(&self) -> (r: Self)
        ensures
            r == self.recip_spec(),
    ;

    /// The complex conjugate.
    fn conj(&self) -> (r: Self)
        ensures
            r == self.conj_spec(),
    ;

    /// The squared absolute value `|self|²`, as a value of the field.
    fn norm_sqr(&self) -> (r: Self)
        ensures
            r == self.norm_sqr_spec(),
    ;

    /// The principal square root.
    fn sqrt(&self) -> (r: Self)
        ensures
            r == self.sqrt_spec(),
    ;

    /// The unit value `e^{i·arg(self)}` that points the way `self` does.
    fn phase(&self) -> (r: Self)
        ensures
            r == self.phase_spec(),
    ;

    /// Whether `self` is exactly the additive identity.
    fn is_zero(&self) -> (r: bool)
        ensures
            r == self.is_zero_spec(),
    ;
}

/// `x₀ + x₁ + … + x_{n-1}`, summed from the left starting at zero.
pub open spec fn sum<T: Scalar>(s: Seq<T>) -> T
    decreases s.len(),
{
    if s.len() == 0 {
        T::zero_spec()
    } else {
        sum(s.drop_last()).add_spec(s.last())
    }
}

/// The laws of a commutative ring, stated over the models of [`Scalar`]. The lemmas below
/// give one law at a time.
#[verifier::opaque]
pub open spec fn ring_laws<T: Scalar>() -> bool {
    &&& forall|a: T, b: T| #[trigger] a.add_spec(b) == b.add_spec(a)
    &&& forall|a: T, b: T, c: T| #[trigger] a.add_spec(b).add_spec(c) == a.add_spec(b.add_spec(c))
    &&& forall|a: T| #[trigger] a.add_spec(T::zero_spec()) == a
    &&& forall|a: T| #[trigger] a.add_spec(a.neg_spec()) == T::zero_spec()
    &&& forall|a: T, b: T| #[trigger] a.sub_spec(b) == a.add_spec(b.neg_spec())
    &&& forall|a: T, b: T| #[trigger] a.mul_spec(b) == b.mul_spec(a)
    &&& forall|a: T, b: T, c: T| #[trigger] a.mul_spec(b).mul_spec(c) == a.mul_spec(b.mul_spec(c))
    &&& forall|a: T| #[trigger] a.mul_spec(T::one_spec()) == a
    &&& forall|a: T, b: T, c: T| #[trigger] a.mul_spec(b.add_spec(c)) == a.mul_spec(b).add_spec(a.mul_spec(c))
}

/// The laws of a field: a commutative ring in which exactly the non-zero values have an
/// inverse, and in which `is_zero` tells zero apart.
#[verifier::opaque]
pub open spec fn field_laws<T: Scalar>() -> bool {
    &&& ring_laws::<T>()
    &&& forall|a: T| #[trigger] a.is_zero_spec() <==> a == T::zero_spec()
    &&& forall|a: T| !a.is_zero_spec() ==> #[trigger] a.mul_spec(a.recip_spec()) == T::one_spec()
}

} // verus!

verus! {

/// Adding one more term to a prefix sum.
pub proof fn lemma_sum_take<T: Scalar>(s: Seq<T>, k: int)
    requires
        0 <= k < s.len(),
    ensures
        sum(s.take(k + 1)) == sum(s.take(k)).add_spec(s[k]),
{
    assert(s.take(k + 1).drop_last() =~= s.take(k));
}

} // verus!

verus! {

pub proof fn lemma_add_comm<T: Scalar>(a: T, b: T)
    requires
        ring_laws::<T>(),
    ensures
        a.add_spec(b) == b.add_spec(a),
{
    reveal(ring_laws);
}

pub proof fn lemma_add_assoc<T: Scalar>(a: T, b: T, c: T)
    requires
        ring_laws::<T>(),
    ensures
        a.add_spec(b).add_spec(c) == a.add_spec(b.add_spec(c)),
{
    reveal(ring_laws);
}

pub proof fn lemma_add_zero<T: Scalar>(a: T)
    requires
        ring_laws::<T>(),
    ensures
        a.add_spec(T::zero_spec()) == a,
        T::zero_spec().add_spec(a) == a,
{
    reveal(ring_laws);
    assert(T::zero_spec().add_spec(a) == a.add_spec(T::zero_spec()));
}

pub proof fn lemma_add_neg<T: Scalar>(a: T)
    requires
        ring_laws::<T>(),
    ensures
        a.add_spec(a.neg_spec()) == T::zero_spec(),
{
    reveal(ring_laws);
}

pub proof fn lemma_sub_def<T: Scalar>(a: T, b: T)
    requires
        ring_laws::<T>(),
    ensures
        a.sub_spec(b) == a.add_spec(b.neg_spec()),
{
    reveal(ring_laws);
}

pub proof fn lemma_mul_comm<T: Scalar>(a: T, b: T)
    requires
        ring_laws::<T>(),
    ensures
        a.mul_spec(b) == b.mul_spec(a),
{
    reveal(ring_laws);
}

pub proof fn lemma_mul_assoc<T: Scalar>(a: T, b: T, c: T)
    requires
        ring_laws::<T>(),
    ensures
        a.mul_spec(b).mul_spec(c) == a.mul_spec(b.mul_spec(c)),
{
    reveal(ring_laws);
}

pub proof fn lemma_mul_one<T: Scalar>(a: T)
    requires
        ring_laws::<T>(),
    ensures
        a.mul_spec(T::one_spec()) == a,
        T::one_spec().mul_spec(a) == a,
{
    reveal(ring_laws);
    assert(T::one_spec().mul_spec(a) == a.mul_spec(T::one_spec()));
}

pub proof fn lemma_distrib<T: Scalar>(a: T, b: T, c: T)
    requires
        ring_laws::<T>(),
    ensures
        a.mul_spec(b.add_spec(c)) == a.mul_spec(b).add_spec(a.mul_spec(c)),
        b.add_spec(c).mul_spec(a) == b.mul_spec(a).add_spec(c.mul_spec(a)),
{
    reveal(ring_laws);
    assert(b.add_spec(c).mul_spec(a) == a.mul_spec(b.add_spec(c)));
    assert(b.mul_spec(a) == a.mul_spec(b));
    assert(c.mul_spec(a) == a.mul_spec(c));
}

/// A field is a commutative ring.
pub proof fn lemma_field_ring<T: Scalar>()
    requires
        field_laws::<T>(),
    ensures
        ring_laws::<T>(),
{
    reveal(field_laws);
}

/// In a field, a value that is not zero times its inverse is one.
pub proof fn lemma_mul_recip<T: Scalar>(a: T)
    requires
        field_laws::<T>(),
        !a.is_zero_spec(),
    ensures
        a.mul_spec(a.recip_spec()) == T::one_spec(),
        a.recip_spec().mul_spec(a) == T::one_spec(),
{
    reveal(field_laws);
    reveal(ring_laws);
    assert(a.recip_spec().mul_spec(a) == a.mul_spec(a.recip_spec()));
}

/// In a commutative ring, `-a` is the only value that adds to `a` to give zero.
pub proof fn lemma_neg_unique<T: Scalar>(a: T, b: T)
    requires
        ring_laws::<T>(),
        a.add_spec(b) == T::zero_spec(),
    ensures
        b == a.neg_spec(),
{
    lemma_add_zero(b);
    lemma_add_neg(a);
    lemma_add_assoc(b, a, a.neg_spec());
    lemma_add_comm(b, a);
    lemma_add_zero(a.neg_spec());
}

/// In a commutative ring, `-(a + -b) = -a + b`.
pub proof fn lemma_neg_sum<T: Scalar>(a: T, b: T)
    requires
        ring_laws::<T>(),
    ensures
        a.add_spec(b.neg_spec()).neg_spec() == a.neg_spec().add_spec(b),
{
    let (na, nb) = (a.neg_spec(), b.neg_spec());
    lemma_add_assoc(a, nb, na.add_spec(b));
    lemma_add_assoc(nb, na, b);
    lemma_add_comm(nb, na);
    lemma_add_assoc(na, nb, b);
    lemma_add_comm(nb, b);
    lemma_add_neg(b);
    lemma_add_zero(na);
    lemma_add_neg(a);
    lemma_neg_unique(a.add_spec(nb), na.add_spec(b));
}

/// In a commutative ring, anything times zero is zero.
pub proof fn lemma_mul_zero<T: Scalar>(a: T)
    requires
        ring_laws::<T>(),
    ensures
        a.mul_spec(T::zero_spec()) == T::zero_spec(),
        T::zero_spec().mul_spec(a) == T::zero_spec(),
{
    let z = T::zero_spec();
    let x = a.mul_spec(z);
    lemma_add_zero(z);
    lemma_distrib(a, z, z);
    assert(x.add_spec(x) == x);
    lemma_add_neg(x);
    lemma_add_assoc(x, x, x.neg_spec());
    lemma_add_zero(x);
    lemma_mul_comm(a, z);
}

/// In a commutative ring, `a·(-b) = -(a·b)`.
pub proof fn lemma_mul_neg<T: Scalar>(a: T, b: T)
    requires
        ring_laws::<T>(),
    ensures
        a.mul_spec(b.neg_spec()) == a.mul_spec(b).neg_spec(),
        b.neg_spec().mul_spec(a) == a.mul_spec(b).neg_spec(),
{
    lemma_mul_zero(a);
    lemma_add_neg(b);
    lemma_distrib(a, b, b.neg_spec());
    lemma_neg_unique(a.mul_spec(b), a.mul_spec(b.neg_spec()));
    lemma_mul_comm(a, b.neg_spec());
}

/// In a commutative ring, `a·(b - c) = a·b + -(a·c)`.
pub proof fn lemma_mul_sub<T: Scalar>(a: T, b: T, c: T)
    requires
        ring_laws::<T>(),
    ensures
        a.mul_spec(b.sub_spec(c)) == a.mul_spec(b).add_spec(a.mul_spec(c).neg_spec()),
{
    lemma_sub_def(b, c);
    lemma_distrib(a, b, c.neg_spec());
    lemma_mul_neg(a, c);
}

/// The sum of one term.
pub proof fn lemma_sum1<T: Scalar>(s: Seq<T>)
    requires
        ring_laws::<T>(),
        s.len() == 1,
    ensures
        sum(s) == s[0],
{
    assert(s.drop_last() =~= Seq::<T>::empty());
    assert(sum(s) == sum(s.drop_last()).add_spec(s.last()));
    assert(sum(s.drop_last()) == T::zero_spec());
    lemma_add_zero(s[0]);
}

/// The sum of two terms.
pub proof fn lemma_sum2<T: Scalar>(s: Seq<T>)
    requires
        ring_laws::<T>(),
        s.len() == 2,
    ensures
        sum(s) == s[0].add_spec(s[1]),
{
    let d = s.drop_last();
    assert(d.drop_last() =~= Seq::<T>::empty());
    assert(sum(s) == sum(d).add_spec(s.last()));
    assert(sum(d) == sum(d.drop_last()).add_spec(d.last()));
    assert(sum(d.drop_last()) == T::zero_spec());
    lemma_add_zero(s[0]);
}

} // verus!
