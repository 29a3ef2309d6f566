//! The numeric contract that every vector and matrix is generic over.

use vstd::prelude::*;

verus! {

/// A numeric type whose arithmetic is a function of its operands.
///
/// Every operation comes as a triple: a predicate that says when the
/// operation is defined (`can_add`), a specification function that names its
/// result (`plus`), and the executable method (`add`). Fixed-width integers
/// are defined wherever the exact result fits; an implementation for a
/// floating-point type is defined everywhere.
pub trait Scalar: Copy + Sized {
    /// The additive identity.
    spec fn zero_spec() -> Self;

    /// The multiplicative identity.
    spec fn one_spec() -> Self;

    /// True when `self + rhs` is defined.
    spec fn can_add(self, rhs: Self) -> bool;

    /// The sum `self + rhs`.
    spec fn plus(self, rhs: Self) -> Self;

    /// True when `self - rhs` is defined.
    spec fn can_sub(self, rhs: Self) -> bool;

    /// The difference `self - rhs`.
    spec fn minus(self, rhs: Self) -> Self;

    /// True when `self * rhs` is defined.
    spec fn can_mul(self, rhs: Self) -> bool;

    /// The product `self * rhs`.
    spec fn times(self, rhs: Self) -> Self;

    /// True when `self / rhs` is defined.
    spec fn can_div(self, rhs: Self) -> bool;

    /// The quotient `self / rhs`.
    spec fn over(self, rhs: Self) -> Self;

    /// True when `self % rhs` is defined.
    spec fn can_rem(self, rhs: Self) -> bool;

    /// The remainder `self % rhs`.
    spec fn modulo(self, rhs: Self) -> Self;

    /// The equality that `equals` decides.
    spec fn same(self, rhs: Self) -> bool;

    /// The strict order that `less_than` decides.
    spec fn less(self, rhs: Self) -> bool;

    /// The additive identity.
    fn zero() -> (r: Self)
        ensures
            r == Self::zero_spec(),
    ;

    /// The multiplicative identity.
    fn one() -> (r: Self)
        ensures
            r == Self::one_spec(),
    ;

    /// Adds `rhs` to `self`.
    fn add(self, rhs: Self) -> (r: Self)
        requires
            self.can_add(rhs),
        ensures
            r == self.plus(rhs),
    ;

    /// Subtracts `rhs` from `self`.
    fn sub(self, rhs: Self) -> (r: Self)
        requires
            self.can_sub(rhs),
        ensures
            r == self.minus(rhs),
    ;

    /// Multiplies `self` by `rhs`.
    fn mul(self, rhs: Self) -> (r: Self)
        requires
            self.can_mul(rhs),
        ensures
            r == self.times(rhs),
    ;

    /// Divides `self` by `rhs`.
    fn div(self, rhs: Self) -> (r: Self)
        requires
            self.can_div(rhs),
        ensures
            r == self.over(rhs),
    ;

    /// The remainder of `self` by `rhs`.
    fn rem(self, rhs: Self) -> (r: Self)
        requires
            self.can_rem(rhs),
        ensures
            r == self.modulo(rhs),
    ;

    /// Tells whether `self` and `rhs` are the same.
    fn equals(self, rhs: Self) -> (b: bool)
        ensures
            b == self.same(rhs),
    ;

    /// Tells whether `self` comes before `rhs`.
    fn less_than(self, rhs: Self) -> (b: bool)
        ensures
            b == self.less(rhs),
    ;
}

/// A scalar with additive inverses.
pub trait ScalarSigned: Scalar {
    /// True when `-self` is defined.
    spec fn can_neg(self) -> bool;

    /// The additive inverse `-self`.
    spec fn negated(self) -> Self;

    /// Negates `self`.
    fn neg(self) -> (r: Self)
        requires
            self.can_neg(),
        ensures
            r == self.negated(),
    ;
}

/// A signed scalar with the square root and the trigonometric functions of a
/// floating-point type.
///
/// The library holds no implementation of this trait: a caller supplies one
/// for the floating-point type in use. Each method must return the same
/// result whenever it is given the same argument; the contracts of the
/// functions built on it say which values are handed to which method.
pub trait ScalarFloat: ScalarSigned {
    /// The square root of `self`.
    spec fn root(self) -> Self;

    /// The sine of the angle `self`, in radians.
    spec fn sine(self) -> Self;

    /// The cosine of the angle `self`, in radians.
    spec fn cosine(self) -> Self;

    /// The tangent of the angle `self`, in radians.
    spec fn tangent(self) -> Self;

    /// The square root of `self`.
    fn sqrt(self) -> (r: Self)
        ensures
            r == self.root(),
    ;

    /// The sine of `self`.
    fn sin(self) -> (r: Self)
        ensures
            r == self.sine(),
    ;

    /// The cosine of `self`.
    fn cos(self) -> (r: Self)
        ensures
            r == self.cosine(),
    ;

    /// The tangent of `self`.
    fn tan(self) -> (r: Self)
        ensures
            r == self.tangent(),
    ;
}

/// A scalar that is an integer: it has an exact value, and every operation
/// that is defined computes on values as the integers do.
///
/// The algebraic laws of the library are proved for scalars of this kind.
pub trait ExactScalar: Scalar {
    /// The integer that `self` stands for.
    spec fn value(self) -> int;

    /// Two scalars with the same value are the same scalar.
    proof fn lemma_value_injective(a: Self, b: Self)
        requires
            a.value() == b.value(),
        ensures
            a == b,
    ;

    /// `same` is equality.
    proof fn lemma_same(a: Self, b: Self)
        ensures
            a.same(b) <==> a == b,
    ;

    /// `less` is the order of the values.
    proof fn lemma_less(a: Self, b: Self)
        ensures
            a.less(b) <==> a.value() < b.value(),
    ;

    /// The identities have the values 0 and 1.
    proof fn lemma_identities()
        ensures
            Self::zero_spec().value() == 0,
            Self::one_spec().value() == 1,
    ;

    /// An operation is defined whenever one operand is an identity that
    /// leaves the other unchanged or absorbs it.
    proof fn lemma_identities_defined(a: Self)
        ensures
            a.can_add(Self::zero_spec()),
            Self::zero_spec().can_add(a),
            a.can_sub(Self::zero_spec()),
            a.can_sub(a),
            a.can_mul(Self::zero_spec()),
            Self::zero_spec().can_mul(a),
            a.can_mul(Self::one_spec()),
            Self::one_spec().can_mul(a),
    ;

    /// One over one is defined and is one.
    proof fn lemma_reciprocal_of_one()
        ensures
            Self::one_spec().can_div(Self::one_spec()),
            Self::one_spec().over(Self::one_spec()) == Self::one_spec(),
    ;

    /// A defined sum has the sum of the values.
    proof fn lemma_add(a: Self, b: Self)
        requires
            a.can_add(b),
        ensures
            a.plus(b).value() == a.value() + b.value(),
    ;

    /// A defined difference has the difference of the values.
    proof fn lemma_sub(a: Self, b: Self)
        requires
            a.can_sub(b),
        ensures
            a.minus(b).value() == a.value() - b.value(),
    ;

    /// A defined product has the product of the values.
    proof fn lemma_mul(a: Self, b: Self)
        requires
            a.can_mul(b),
        ensures
            a.times(b).value() == a.value() * b.value(),
    ;
}

/// A signed integer scalar.
pub trait ExactSigned: ExactScalar + ScalarSigned {
    /// A defined negation has the negated value.
    proof fn lemma_neg(a: Self)
        requires
            a.can_neg(),
        ensures
            a.negated().value() == -a.value(),
    ;

    /// Minus one exists, and one over minus one is defined and is minus one.
    proof fn lemma_reciprocal_of_minus_one()
        ensures
            Self::one_spec().can_neg(),
            Self::one_spec().can_div(Self::one_spec().negated()),
            Self::one_spec().over(Self::one_spec().negated()) == Self::one_spec().negated(),
    ;
}

} // verus!
