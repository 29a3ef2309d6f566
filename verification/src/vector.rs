//! Fixed-size vectors of one to four components.
//!
//! Every operation is given three times over: a predicate that says when it
//! is defined (`can_add`), a specification function that names its result
//! component by component (`plus`), and the executable method or operator.

use vstd::prelude::*;
use crate::scalar::{Scalar, ScalarFloat, ScalarSigned};

verus! {

/// The dot product of two vectors, by value or by reference on either side.
pub trait DotProduct<Rhs>: Sized {
    type Output;

    /// True when every product and every partial sum is defined.
    spec fn can_dot(self, rhs: Rhs) -> bool;

    /// The sum of the products of the components, added from the first on.
    spec fn dot_spec(self, rhs: Rhs) -> Self::Output;

    /// Computes the dot product.
    fn dot(self, rhs: Rhs) -> (r: Self::Output)
        requires
            self.can_dot(rhs),
        ensures
            r == self.dot_spec(rhs),
    ;
}

/// A vector with one component.
#[derive(Clone, Copy, Debug, PartialEq, Eq, Hash)]
pub struct Vector1<S> {
    pub x: S,
}

impl<S: Scalar> Vector1<S> {
    /// The component at index `i`, counted from zero.
    pub open spec fn at(self, i: int) -> S {
        self.x
    }

    /// The vector with `value` at index `i` and the other components of `self`.
    pub open spec fn with(self, i: int, value: S) -> Vector1<S> {
        Vector1 { x: if i == 0 { value } else { self.x } }
    }

    /// The vector whose components are all zero.
    pub open spec fn zero_spec() -> Vector1<S> {
        Vector1 { x: S::zero_spec() }
    }

    /// The vector whose components are all `value`.
    pub open spec fn fill_spec(value: S) -> Vector1<S> {
        Vector1 { x: value }
    }

    /// The unit vector along the x-axis.
    pub open spec fn unit_x_spec() -> Vector1<S> {
        Vector1 { x: S::one_spec() }
    }

    /// True when every component of `self` is the same as zero.
    pub open spec fn is_zero_spec(self) -> bool {
        &&& self.x.same(S::zero_spec())
    }

    /// True when each component of `self` can be added to that of `other`.
    pub open spec fn can_add(self, other: Vector1<S>) -> bool {
        &&& self.x.can_add(other.x)
    }

    /// The component-wise sum.
    pub open spec fn plus(self, other: Vector1<S>) -> Vector1<S> {
        Vector1 { x: self.x.plus(other.x) }
    }

    /// True when each component of `other` can be subtracted from that of `self`.
    pub open spec fn can_sub(self, other: Vector1<S>) -> bool {
        &&& self.x.can_sub(other.x)
    }

    /// The component-wise difference.
    pub open spec fn minus(self, other: Vector1<S>) -> Vector1<S> {
        Vector1 { x: self.x.minus(other.x) }
    }

    /// True when each component can be multiplied by `c` on the right.
    pub open spec fn can_scale(self, c: S) -> bool {
        &&& self.x.can_mul(c)
    }

    /// Each component multiplied by `c` on the right.
    pub open spec fn scaled(self, c: S) -> Vector1<S> {
        Vector1 { x: self.x.times(c) }
    }

    /// True when each component can be multiplied by `c` on the left.
    pub open spec fn can_scale_left(self, c: S) -> bool {
        &&& c.can_mul(self.x)
    }

    /// Each component multiplied by `c` on the left.
    pub open spec fn scaled_left(self, c: S) -> Vector1<S> {
        Vector1 { x: c.times(self.x) }
    }

    /// True when each component can be divided by `c`.
    pub open spec fn can_div(self, c: S) -> bool {
        &&& self.x.can_div(c)
    }

    /// Each component divided by `c`.
    pub open spec fn over(self, c: S) -> Vector1<S> {
        Vector1 { x: self.x.over(c) }
    }

    /// True when the remainder of each component by `c` is defined.
    pub open spec fn can_rem(self, c: S) -> bool {
        &&& self.x.can_rem(c)
    }

    /// The remainder of each component by `c`.
    pub open spec fn modulo(self, c: S) -> Vector1<S> {
        Vector1 { x: self.x.modulo(c) }
    }

    /// True when the interpolation towards `other` by `amount` is defined.
    pub open spec fn can_lerp(self, other: Vector1<S>, amount: S) -> bool {
        &&& other.x.can_sub(self.x)
        &&& other.x.minus(self.x).can_mul(amount)
        &&& self.x.can_add(other.x.minus(self.x).times(amount))
    }

    /// The interpolation `self + (other - self) * amount`, component by component.
    pub open spec fn lerp_spec(self, other: Vector1<S>, amount: S) -> Vector1<S> {
        Vector1 { x: self.x.plus(other.x.minus(self.x).times(amount)) }
    }

    /// True when every product and partial sum of the dot product is defined.
    pub open spec fn can_dot_with(self, other: Vector1<S>) -> bool {
        &&& self.x.can_mul(other.x)
    }

    /// The dot product: the products of the components, added from the first on.
    pub open spec fn dot_with(self, other: Vector1<S>) -> S {
        self.x.times(other.x)
    }

    /// True when the squared distance to `other` is defined.
    pub open spec fn can_distance_squared(self, other: Vector1<S>) -> bool {
        &&& other.x.can_sub(self.x)
        &&& other.x.minus(self.x).can_mul(other.x.minus(self.x))
    }

    /// The squared distance: the squares of the component differences
    /// `other - self`, added from the first on.
    pub open spec fn distance_squared_spec(self, other: Vector1<S>) -> S {
        other.x.minus(self.x).times(other.x.minus(self.x))
    }

    /// The vector of one more component, with `y` as the last.
    pub open spec fn extend_spec(self, y: S) -> Vector2<S> {
        Vector2 { x: self.x, y }
    }

    /// Makes a vector from its components.
    pub fn new(x: S) -> (r: Vector1<S>)
        ensures
            r == (Vector1 { x: x }),
    {
        Vector1 { x }
    }

    /// The zero vector.
    pub fn zero() -> (r: Vector1<S>)
        ensures
            r == Self::zero_spec(),
    {
        Vector1 { x: S::zero() }
    }

    /// The vector whose components all equal `value`.
    pub fn from_fill(value: S) -> (r: Vector1<S>)
        ensures
            r == Self::fill_spec(value),
    {
        Vector1 { x: value }
    }

    /// The unit vector along the x-axis.
    pub fn unit_x() -> (r: Vector1<S>)
        ensures
            r == Self::unit_x_spec(),
    {
        Vector1 { x: S::one() }
    }

    /// The number of components.
    pub fn len() -> (r: usize)
        ensures
            r == 1,
    {
        1
    }

    /// The shape as a pair of the number of rows and the number of columns.
    pub fn shape() -> (r: (usize, usize))
        ensures
            r == (1usize, 1usize),
    {
        (1, 1)
    }

    /// The components in order, as an array.
    pub fn to_array(&self) -> (r: [S; 1])
        ensures
            r@ == seq![self.x],
    {
        [self.x]
    }

    /// Replaces the component at `index` by `value`.
    pub fn set(&mut self, index: usize, value: S)
        requires
            index < 1,
        ensures
            *final(self) == old(self).with(index as int, value),
    {
        self.x = value;
    }

    /// Tells whether every component is zero.
    pub fn is_zero(&self) -> (r: bool)
        ensures
            r == self.is_zero_spec(),
    {
        self.x.equals(S::zero())
    }

    /// The squared length: the dot product of the vector with itself.
    pub fn magnitude_squared(&self) -> (r: S)
        requires
            self.can_dot_with(*self),
        ensures
            r == self.dot_with(*self),
    {
        self.x.mul(self.x)
    }

    /// The squared distance from `self` to `other`.
    pub fn distance_squared(self, other: Vector1<S>) -> (r: S)
        requires
            self.can_distance_squared(other),
        ensures
            r == self.distance_squared_spec(other),
    {
        let dx = other.x.sub(self.x);
        dx.mul(dx)
    }

    /// Interpolates linearly from `self` towards `other` by `amount`.
    pub fn lerp(self, other: Vector1<S>, amount: S) -> (r: Vector1<S>)
        requires
            self.can_lerp(other, amount),
        ensures
            r == self.lerp_spec(other, amount),
    {
        Vector1 { x: self.x.add(other.x.sub(self.x).mul(amount)) }
    }

    /// Appends `y` as a further component.
    pub fn extend(&self, y: S) -> (r: Vector2<S>)
        ensures
            r == self.extend_spec(y),
    {
        Vector2 { x: self.x, y }
    }

    /// The vector in homogeneous coordinates: a last component of zero is appended.
    pub fn to_homogeneous(&self) -> (r: Vector2<S>)
        ensures
            r == self.extend_spec(S::zero_spec()),
    {
        Vector2 { x: self.x, y: S::zero() }
    }

    /// Adds `other` to `self` in place.
    pub fn add_assign(&mut self, other: Vector1<S>)
        requires
            old(self).can_add(other),
        ensures
            *final(self) == old(self).plus(other),
    {
        self.x = self.x.add(other.x);
    }

    /// Subtracts `other` from `self` in place.
    pub fn sub_assign(&mut self, other: Vector1<S>)
        requires
            old(self).can_sub(other),
        ensures
            *final(self) == old(self).minus(other),
    {
        self.x = self.x.sub(other.x);
    }

    /// Multiplies `self` by `c` in place.
    pub fn mul_assign(&mut self, c: S)
        requires
            old(self).can_scale(c),
        ensures
            *final(self) == old(self).scaled(c),
    {
        self.x = self.x.mul(c);
    }

    /// Divides `self` by `c` in place.
    pub fn div_assign(&mut self, c: S)
        requires
            old(self).can_div(c),
        ensures
            *final(self) == old(self).over(c),
    {
        self.x = self.x.div(c);
    }

    /// Replaces each component by its remainder by `c`.
    pub fn rem_assign(&mut self, c: S)
        requires
            old(self).can_rem(c),
        ensures
            *final(self) == old(self).modulo(c),
    {
        self.x = self.x.rem(c);
    }

    /// Multiplies each component by `c`, with `c` on the left of each product.
    pub fn scale_left(self, c: S) -> (r: Vector1<S>)
        requires
            self.can_scale_left(c),
        ensures
            r == self.scaled_left(c),
    {
        Vector1 { x: c.mul(self.x) }
    }
}

impl<S: ScalarSigned> Vector1<S> {
    /// True when every component can be negated.
    pub open spec fn can_neg(self) -> bool {
        &&& self.x.can_neg()
    }

    /// The vector of the negated components.
    pub open spec fn negated(self) -> Vector1<S> {
        Vector1 { x: self.x.negated() }
    }

    /// Negates `self` in place.
    pub fn neg_mut(&mut self)
        requires
            old(self).can_neg(),
        ensures
            *final(self) == old(self).negated(),
    {
        self.x = self.x.neg();
    }
}

impl<S: ScalarFloat> Vector1<S> {
    /// The length: the square root of the squared length.
    pub open spec fn magnitude_spec(self) -> S {
        self.dot_with(self).root()
    }

    /// True when the vector can be divided by its length.
    pub open spec fn can_normalize(self) -> bool {
        self.can_dot_with(self) && self.can_div(self.magnitude_spec())
    }

    /// The vector divided by its length.
    pub open spec fn normalize_spec(self) -> Vector1<S> {
        self.over(self.magnitude_spec())
    }

    /// True when the vector can be rescaled to the length `magnitude`.
    pub open spec fn can_normalize_to(self, magnitude: S) -> bool {
        &&& self.can_dot_with(self)
        &&& magnitude.can_div(self.magnitude_spec())
        &&& self.can_scale(magnitude.over(self.magnitude_spec()))
    }

    /// The vector multiplied by `magnitude` over its length.
    pub open spec fn normalize_to_spec(self, magnitude: S) -> Vector1<S> {
        self.scaled(magnitude.over(self.magnitude_spec()))
    }

    /// The length of the vector.
    pub fn magnitude(&self) -> (r: S)
        requires
            self.can_dot_with(*self),
        ensures
            r == self.magnitude_spec(),
    {
        self.magnitude_squared().sqrt()
    }

    /// The vector of length one in the direction of `self`.
    pub fn normalize(&self) -> (r: Vector1<S>)
        requires
            self.can_normalize(),
        ensures
            r == self.normalize_spec(),
    {
        let m = self.magnitude();
        Vector1 { x: self.x.div(m) }
    }

    /// The vector of length `magnitude` in the direction of `self`.
    pub fn normalize_to(&self, magnitude: S) -> (r: Vector1<S>)
        requires
            self.can_normalize_to(magnitude),
        ensures
            r == self.normalize_to_spec(magnitude),
    {
        let c = magnitude.div(self.magnitude());
        Vector1 { x: self.x.mul(c) }
    }

    /// The distance from `self` to `other`.
    pub fn distance(self, other: Vector1<S>) -> (r: S)
        requires
            self.can_distance_squared(other),
        ensures
            r == self.distance_squared_spec(other).root(),
    {
        self.distance_squared(other).sqrt()
    }
}

impl<S: Scalar> DotProduct<Vector1<S>> for Vector1<S> {
    type Output = S;

    open spec fn can_dot(self, rhs: Vector1<S>) -> bool {
        self.can_dot_with(rhs)
    }

    open spec fn dot_spec(self, rhs: Vector1<S>) -> S {
        self.dot_with(rhs)
    }

    fn dot(self, rhs: Vector1<S>) -> (r: S) {
        self.x.mul(rhs.x)
    }
}

impl<'b, S: Scalar> DotProduct<&'b Vector1<S>> for Vector1<S> {
    type Output = S;

    open spec fn can_dot(self, rhs: &'b Vector1<S>) -> bool {
        self.can_dot_with(*rhs)
    }

    open spec fn dot_spec(self, rhs: &'b Vector1<S>) -> S {
        self.dot_with(*rhs)
    }

    fn dot(self, rhs: &'b Vector1<S>) -> (r: S) {
        self.x.mul(rhs.x)
    }
}

impl<'a, S: Scalar> DotProduct<Vector1<S>> for &'a Vector1<S> {
    type Output = S;

    open spec fn can_dot(self, rhs: Vector1<S>) -> bool {
        (*self).can_dot_with(rhs)
    }

    open spec fn dot_spec(self, rhs: Vector1<S>) -> S {
        (*self).dot_with(rhs)
    }

    fn dot(self, rhs: Vector1<S>) -> (r: S) {
        self.x.mul(rhs.x)
    }
}

impl<'a, 'b, S: Scalar> DotProduct<&'b Vector1<S>> for &'a Vector1<S> {
    type Output = S;

    open spec fn can_dot(self, rhs: &'b Vector1<S>) -> bool {
        (*self).can_dot_with(*rhs)
    }

    open spec fn dot_spec(self, rhs: &'b Vector1<S>) -> S {
        (*self).dot_with(*rhs)
    }

    fn dot(self, rhs: &'b Vector1<S>) -> (r: S) {
        self.x.mul(rhs.x)
    }
}

impl<S: Scalar> core::ops::Add<Vector1<S>> for Vector1<S> {
    type Output = Vector1<S>;

    fn add(self, other: Vector1<S>) -> (r: Vector1<S>) {
        Vector1 { x: self.x.add(other.x) }
    }
}

impl<S: Scalar> vstd::std_specs::ops::AddSpecImpl<Vector1<S>> for Vector1<S> {
    open spec fn obeys_add_spec() -> bool {
        true
    }

    open spec fn add_req(self, other: Vector1<S>) -> bool {
        self.can_add(other)
    }

    open spec fn add_spec(self, other: Vector1<S>) -> Vector1<S> {
        self.plus(other)
    }
}

impl<'b, S: Scalar> core::ops::Add<&'b Vector1<S>> for Vector1<S> {
    type Output = Vector1<S>;

    fn add(self, other: &'b Vector1<S>) -> (r: Vector1<S>) {
        Vector1 { x: self.x.add(other.x) }
    }
}

impl<'b, S: Scalar> vstd::std_specs::ops::AddSpecImpl<&'b Vector1<S>> for Vector1<S> {
    open spec fn obeys_add_spec() -> bool {
        true
    }

    open spec fn add_req(self, other: &'b Vector1<S>) -> bool {
        self.can_add(*other)
    }

    open spec fn add_spec(self, other: &'b Vector1<S>) -> Vector1<S> {
        self.plus(*other)
    }
}

impl<'a, S: Scalar> core::ops::Add<Vector1<S>> for &'a Vector1<S> {
    type Output = Vector1<S>;

    fn add(self, other: Vector1<S>) -> (r: Vector1<S>) {
        Vector1 { x: self.x.add(other.x) }
    }
}

impl<'a, S: Scalar> vstd::std_specs::ops::AddSpecImpl<Vector1<S>> for &'a Vector1<S> {
    open spec fn obeys_add_spec() -> bool {
        true
    }

    open spec fn add_req(self, other: Vector1<S>) -> bool {
        (*self).can_add(other)
    }

    open spec fn add_spec(self, other: Vector1<S>) -> Vector1<S> {
        (*self).plus(other)
    }
}

impl<'a, 'b, S: Scalar> core::ops::Add<&'b Vector1<S>> for &'a Vector1<S> {
    type Output = Vector1<S>;

    fn add(self, other: &'b Vector1<S>) -> (r: Vector1<S>) {
        Vector1 { x: self.x.add(other.x) }
    }
}

impl<'a, 'b, S: Scalar> vstd::std_specs::ops::AddSpecImpl<&'b Vector1<S>> for &'a Vector1<S> {
    open spec fn obeys_add_spec() -> bool {
        true
    }

    open spec fn add_req(self, other: &'b Vector1<S>) -> bool {
        (*self).can_add(*other)
    }

    open spec fn add_spec(self, other: &'b Vector1<S>) -> Vector1<S> {
        (*self).plus(*other)
    }
}

impl<S: Scalar> core::ops::Sub<Vector1<S>> for Vector1<S> {
    type Output = Vector1<S>;

    fn sub(self, other: Vector1<S>) -> (r: Vector1<S>) {
        Vector1 { x: self.x.sub(other.x) }
    }
}

impl<S: Scalar> vstd::std_specs::ops::SubSpecImpl<Vector1<S>> for Vector1<S> {
    open spec fn obeys_sub_spec() -> bool {
        true
    }

    open spec fn sub_req(self, other: Vector1<S>) -> bool {
        self.can_sub(other)
    }

    open spec fn sub_spec(self, other: Vector1<S>) -> Vector1<S> {
        self.minus(other)
    }
}

impl<'b, S: Scalar> core::ops::Sub<&'b Vector1<S>> for Vector1<S> {
    type Output = Vector1<S>;

    fn sub(self, other: &'b Vector1<S>) -> (r: Vector1<S>) {
        Vector1 { x: self.x.sub(other.x) }
    }
}

impl<'b, S: Scalar> vstd::std_specs::ops::SubSpecImpl<&'b Vector1<S>> for Vector1<S> {
    open spec fn obeys_sub_spec() -> bool {
        true
    }

    open spec fn sub_req(self, other: &'b Vector1<S>) -> bool {
        self.can_sub(*other)
    }

    open spec fn sub_spec(self, other: &'b Vector1<S>) -> Vector1<S> {
        self.minus(*other)
    }
}

impl<'a, S: Scalar> core::ops::Sub<Vector1<S>> for &'a Vector1<S> {
    type Output = Vector1<S>;

    fn sub(self, other: Vector1<S>) -> (r: Vector1<S>) {
        Vector1 { x: self.x.sub(other.x) }
    }
}

impl<'a, S: Scalar> vstd::std_specs::ops::SubSpecImpl<Vector1<S>> for &'a Vector1<S> {
    open spec fn obeys_sub_spec() -> bool {
        true
    }

    open spec fn sub_req(self, other: Vector1<S>) -> bool {
        (*self).can_sub(other)
    }

    open spec fn sub_spec(self, other: Vector1<S>) -> Vector1<S> {
        (*self).minus(other)
    }
}

impl<'a, 'b, S: Scalar> core::ops::Sub<&'b Vector1<S>> for &'a Vector1<S> {
    type Output = Vector1<S>;

    fn sub(self, other: &'b Vector1<S>) -> (r: Vector1<S>) {
        Vector1 { x: self.x.sub(other.x) }
    }
}

impl<'a, 'b, S: Scalar> vstd::std_specs::ops::SubSpecImpl<&'b Vector1<S>> for &'a Vector1<S> {
    open spec fn obeys_sub_spec() -> bool {
        true
    }

    open spec fn sub_req(self, other: &'b Vector1<S>) -> bool {
        (*self).can_sub(*other)
    }

    open spec fn sub_spec(self, other: &'b Vector1<S>) -> Vector1<S> {
        (*self).minus(*other)
    }
}

impl<S: Scalar> core::ops::Mul<S> for Vector1<S> {
    type Output = Vector1<S>;

    fn mul(self, other: S) -> (r: Vector1<S>) {
        Vector1 { x: self.x.mul(other) }
    }
}

impl<S: Scalar> vstd::std_specs::ops::MulSpecImpl<S> for Vector1<S> {
    open spec fn obeys_mul_spec() -> bool {
        true
    }

    open spec fn mul_req(self, other: S) -> bool {
        self.can_scale(other)
    }

    open spec fn mul_spec(self, other: S) -> Vector1<S> {
        self.scaled(other)
    }
}

impl<'a, S: Scalar> core::ops::Mul<S> for &'a Vector1<S> {
    type Output = Vector1<S>;

    fn mul(self, other: S) -> (r: Vector1<S>) {
        Vector1 { x: self.x.mul(other) }
    }
}

impl<'a, S: Scalar> vstd::std_specs::ops::MulSpecImpl<S> for &'a Vector1<S> {
    open spec fn obeys_mul_spec() -> bool {
        true
    }

    open spec fn mul_req(self, other: S) -> bool {
        (*self).can_scale(other)
    }

    open spec fn mul_spec(self, other: S) -> Vector1<S> {
        (*self).scaled(other)
    }
}

impl<S: Scalar> core::ops::Div<S> for Vector1<S> {
    type Output = Vector1<S>;

    fn div(self, other: S) -> (r: Vector1<S>) {
        Vector1 { x: self.x.div(other) }
    }
}

impl<S: Scalar> vstd::std_specs::ops::DivSpecImpl<S> for Vector1<S> {
    open spec fn obeys_div_spec() -> bool {
        true
    }

    open spec fn div_req(self, other: S) -> bool {
        self.can_div(other)
    }

    open spec fn div_spec(self, other: S) -> Vector1<S> {
        self.over(other)
    }
}

impl<'a, S: Scalar> core::ops::Div<S> for &'a Vector1<S> {
    type Output = Vector1<S>;

    fn div(self, other: S) -> (r: Vector1<S>) {
        Vector1 { x: self.x.div(other) }
    }
}

impl<'a, S: Scalar> vstd::std_specs::ops::DivSpecImpl<S> for &'a Vector1<S> {
    open spec fn obeys_div_spec() -> bool {
        true
    }

    open spec fn div_req(self, other: S) -> bool {
        (*self).can_div(other)
    }

    open spec fn div_spec(self, other: S) -> Vector1<S> {
        (*self).over(other)
    }
}

impl<S: Scalar> core::ops::Rem<S> for Vector1<S> {
    type Output = Vector1<S>;

    fn rem(self, other: S) -> (r: Vector1<S>) {
        Vector1 { x: self.x.rem(other) }
    }
}

impl<S: Scalar> vstd::std_specs::ops::RemSpecImpl<S> for Vector1<S> {
    open spec fn obeys_rem_spec() -> bool {
        true
    }

    open spec fn rem_req(self, other: S) -> bool {
        self.can_rem(other)
    }

    open spec fn rem_spec(self, other: S) -> Vector1<S> {
        self.modulo(other)
    }
}

impl<'a, S: Scalar> core::ops::Rem<S> for &'a Vector1<S> {
    type Output = Vector1<S>;

    fn rem(self, other: S) -> (r: Vector1<S>) {
        Vector1 { x: self.x.rem(other) }
    }
}

impl<'a, S: Scalar> vstd::std_specs::ops::RemSpecImpl<S> for &'a Vector1<S> {
    open spec fn obeys_rem_spec() -> bool {
        true
    }

    open spec fn rem_req(self, other: S) -> bool {
        (*self).can_rem(other)
    }

    open spec fn rem_spec(self, other: S) -> Vector1<S> {
        (*self).modulo(other)
    }
}

impl<S: ScalarSigned> core::ops::Neg for Vector1<S> {
    type Output = Vector1<S>;

    fn neg(self) -> (r: Vector1<S>) {
        Vector1 { x: self.x.neg() }
    }
}

impl<S: ScalarSigned> vstd::std_specs::ops::NegSpecImpl for Vector1<S> {
    open spec fn obeys_neg_spec() -> bool {
        true
    }

    open spec fn neg_req(self) -> bool {
        self.can_neg()
    }

    open spec fn neg_spec(self) -> Vector1<S> {
        self.negated()
    }
}

impl<'a, S: ScalarSigned> core::ops::Neg for &'a Vector1<S> {
    type Output = Vector1<S>;

    fn neg(self) -> (r: Vector1<S>) {
        Vector1 { x: self.x.neg() }
    }
}

impl<'a, S: ScalarSigned> vstd::std_specs::ops::NegSpecImpl for &'a Vector1<S> {
    open spec fn obeys_neg_spec() -> bool {
        true
    }

    open spec fn neg_req(self) -> bool {
        (*self).can_neg()
    }

    open spec fn neg_spec(self) -> Vector1<S> {
        (*self).negated()
    }
}

impl<S: Scalar> core::ops::Index<usize> for Vector1<S> {
    type Output = S;

    fn index(&self, index: usize) -> (r: &S)
        ensures
            *r == self.at(index as int),
    {
        if index == 0 {
            &self.x
        } else {
            vstd::pervasive::unreached()
        }
    }
}

impl<S: Scalar> vstd::std_specs::core::IndexSpecImpl<usize> for Vector1<S> {
    open spec fn index_req(&self, index: &usize) -> bool {
        *index < 1
    }
}

impl<S: Scalar> core::convert::From<S> for Vector1<S> {
    fn from(v: S) -> (r: Vector1<S>) {
        Vector1 { x: v }
    }
}

impl<S: Scalar> vstd::std_specs::convert::FromSpecImpl<S> for Vector1<S> {
    open spec fn obeys_from_spec() -> bool {
        true
    }

    open spec fn from_spec(v: S) -> Vector1<S> {
        Vector1 { x: v }
    }
}

impl<S: Scalar> core::convert::From<[S; 1]> for Vector1<S> {
    fn from(v: [S; 1]) -> (r: Vector1<S>) {
        Vector1 { x: v[0] }
    }
}

impl<S: Scalar> vstd::std_specs::convert::FromSpecImpl<[S; 1]> for Vector1<S> {
    open spec fn obeys_from_spec() -> bool {
        true
    }

    open spec fn from_spec(v: [S; 1]) -> Vector1<S> {
        Vector1 { x: v@[0] }
    }
}

impl<'a, S: Scalar> core::convert::From<&'a [S; 1]> for Vector1<S> {
    fn from(v: &'a [S; 1]) -> (r: Vector1<S>) {
        Vector1 { x: v[0] }
    }
}

impl<'a, S: Scalar> vstd::std_specs::convert::FromSpecImpl<&'a [S; 1]> for Vector1<S> {
    open spec fn obeys_from_spec() -> bool {
        true
    }

    open spec fn from_spec(v: &'a [S; 1]) -> Vector1<S> {
        Vector1 { x: v@[0] }
    }
}

/// A vector with two components.
#[derive(Clone, Copy, Debug, PartialEq, Eq, Hash)]
pub struct Vector2<S> {
    pub x: S,
    pub y: S,
}

impl<S: Scalar> Vector2<S> {
    /// The component at index `i`, counted from zero.
    pub open spec fn at(self, i: int) -> S {
        if i == 0 {
            self.x
        } else {
            self.y
        }
    }

    /// The vector with `value` at index `i` and the other components of `self`.
    pub open spec fn with(self, i: int, value: S) -> Vector2<S> {
        Vector2 {
            x: if i == 0 { value } else { self.x },
            y: if i == 1 { value } else { self.y },
        }
    }

    /// The vector whose components are all zero.
    pub open spec fn zero_spec() -> Vector2<S> {
        Vector2 { x: S::zero_spec(), y: S::zero_spec() }
    }

    /// The vector whose components are all `value`.
    pub open spec fn fill_spec(value: S) -> Vector2<S> {
        Vector2 { x: value, y: value }
    }

    /// The unit vector along the x-axis.
    pub open spec fn unit_x_spec() -> Vector2<S> {
        Vector2 { x: S::one_spec(), y: S::zero_spec() }
    }

    /// The unit vector along the y-axis.
    pub open spec fn unit_y_spec() -> Vector2<S> {
        Vector2 { x: S::zero_spec(), y: S::one_spec() }
    }

    /// True when every component of `self` is the same as zero.
    pub open spec fn is_zero_spec(self) -> bool {
        &&& self.x.same(S::zero_spec())
        &&& self.y.same(S::zero_spec())
    }

    /// True when each component of `self` can be added to that of `other`.
    pub open spec fn can_add(self, other: Vector2<S>) -> bool {
        &&& self.x.can_add(other.x)
        &&& self.y.can_add(other.y)
    }

    /// The component-wise sum.
    pub open spec fn plus(self, other: Vector2<S>) -> Vector2<S> {
        Vector2 { x: self.x.plus(other.x), y: self.y.plus(other.y) }
    }

    /// True when each component of `other` can be subtracted from that of `self`.
    pub open spec fn can_sub(self, other: Vector2<S>) -> bool {
        &&& self.x.can_sub(other.x)
        &&& self.y.can_sub(other.y)
    }

    /// The component-wise difference.
    pub open spec fn minus(self, other: Vector2<S>) -> Vector2<S> {
        Vector2 { x: self.x.minus(other.x), y: self.y.minus(other.y) }
    }

    /// True when each component can be multiplied by `c` on the right.
    pub open spec fn can_scale(self, c: S) -> bool {
        &&& self.x.can_mul(c)
        &&& self.y.can_mul(c)
    }

    /// Each component multiplied by `c` on the right.
    pub open spec fn scaled(self, c: S) -> Vector2<S> {
        Vector2 { x: self.x.times(c), y: self.y.times(c) }
    }

    /// True when each component can be multiplied by `c` on the left.
    pub open spec fn can_scale_left(self, c: S) -> bool {
        &&& c.can_mul(self.x)
        &&& c.can_mul(self.y)
    }

    /// Each component multiplied by `c` on the left.
    pub open spec fn scaled_left(self, c: S) -> Vector2<S> {
        Vector2 { x: c.times(self.x), y: c.times(self.y) }
    }

    /// True when each component can be divided by `c`.
    pub open spec fn can_div(self, c: S) -> bool {
        &&& self.x.can_div(c)
        &&& self.y.can_div(c)
    }

    /// Each component divided by `c`.
    pub open spec fn over(self, c: S) -> Vector2<S> {
        Vector2 { x: self.x.over(c), y: self.y.over(c) }
    }

    /// True when the remainder of each component by `c` is defined.
    pub open spec fn can_rem(self, c: S) -> bool {
        &&& self.x.can_rem(c)
        &&& self.y.can_rem(c)
    }

    /// The remainder of each component by `c`.
    pub open spec fn modulo(self, c: S) -> Vector2<S> {
        Vector2 { x: self.x.modulo(c), y: self.y.modulo(c) }
    }

    /// True when the interpolation towards `other` by `amount` is defined.
    pub open spec fn can_lerp(self, other: Vector2<S>, amount: S) -> bool {
        &&& other.x.can_sub(self.x)
        &&& other.x.minus(self.x).can_mul(amount)
        &&& self.x.can_add(other.x.minus(self.x).times(amount))
        &&& other.y.can_sub(self.y)
        &&& other.y.minus(self.y).can_mul(amount)
        &&& self.y.can_add(other.y.minus(self.y).times(amount))
    }

    /// The interpolation `self + (other - self) * amount`, component by component.
    pub open spec fn lerp_spec(self, other: Vector2<S>, amount: S) -> Vector2<S> {
        Vector2 {
            x: self.x.plus(other.x.minus(self.x).times(amount)),
            y: self.y.plus(other.y.minus(self.y).times(amount)),
        }
    }

    /// True when every product and partial sum of the dot product is defined.
    pub open spec fn can_dot_with(self, other: Vector2<S>) -> bool {
        &&& self.x.can_mul(other.x)
        &&& self.y.can_mul(other.y)
        &&& self.x.times(other.x).can_add(self.y.times(other.y))
    }

    /// The dot product: the products of the components, added from the first on.
    pub open spec fn dot_with(self, other: Vector2<S>) -> S {
        self.x.times(other.x).plus(self.y.times(other.y))
    }

    /// True when the squared distance to `other` is defined.
    pub open spec fn can_distance_squared(self, other: Vector2<S>) -> bool {
        &&& other.x.can_sub(self.x)
        &&& other.x.minus(self.x).can_mul(other.x.minus(self.x))
        &&& other.y.can_sub(self.y)
        &&& other.y.minus(self.y).can_mul(other.y.minus(self.y))
        &&& other.x.minus(self.x).times(other.x.minus(self.x)).can_add(other.y.minus(self.y)
            .times(other.y.minus(self.y)))
    }

    /// The squared distance: the squares of the component differences
    /// `other - self`, added from the first on.
    pub open spec fn distance_squared_spec(self, other: Vector2<S>) -> S {
        other.x.minus(self.x).times(other.x.minus(self.x)).plus(other.y.minus(self.y)
            .times(other.y.minus(self.y)))
    }

    /// The vector of one more component, with `z` as the last.
    pub open spec fn extend_spec(self, z: S) -> Vector3<S> {
        Vector3 { x: self.x, y: self.y, z }
    }

    /// The vector without its last component.
    pub open spec fn contract_spec(self) -> Vector1<S> {
        Vector1 { x: self.x }
    }

    /// Makes a vector from its components.
    pub fn new(x: S, y: S) -> (r: Vector2<S>)
        ensures
            r == (Vector2 { x: x, y: y }),
    {
        Vector2 { x, y }
    }

    /// The zero vector.
    pub fn zero() -> (r: Vector2<S>)
        ensures
            r == Self::zero_spec(),
    {
        Vector2 { x: S::zero(), y: S::zero() }
    }

    /// The vector whose components all equal `value`.
    pub fn from_fill(value: S) -> (r: Vector2<S>)
        ensures
            r == Self::fill_spec(value),
    {
        Vector2 { x: value, y: value }
    }

    /// The unit vector along the x-axis.
    pub fn unit_x() -> (r: Vector2<S>)
        ensures
            r == Self::unit_x_spec(),
    {
        Vector2 { x: S::one(), y: S::zero() }
    }

    /// The unit vector along the y-axis.
    pub fn unit_y() -> (r: Vector2<S>)
        ensures
            r == Self::unit_y_spec(),
    {
        Vector2 { x: S::zero(), y: S::one() }
    }

    /// The number of components.
    pub fn len() -> (r: usize)
        ensures
            r == 2,
    {
        2
    }

    /// The shape as a pair of the number of rows and the number of columns.
    pub fn shape() -> (r: (usize, usize))
        ensures
            r == (2usize, 1usize),
    {
        (2, 1)
    }

    /// The components in order, as an array.
    pub fn to_array(&self) -> (r: [S; 2])
        ensures
            r@ == seq![self.x, self.y],
    {
        [self.x, self.y]
    }

    /// Replaces the component at `index` by `value`.
    pub fn set(&mut self, index: usize, value: S)
        requires
            index < 2,
        ensures
            *final(self) == old(self).with(index as int, value),
    {
        if index == 0 {
            self.x = value;
        } else {
            self.y = value;
        }
    }

    /// Tells whether every component is zero.
    pub fn is_zero(&self) -> (r: bool)
        ensures
            r == self.is_zero_spec(),
    {
        self.x.equals(S::zero()) && self.y.equals(S::zero())
    }

    /// The squared length: the dot product of the vector with itself.
    pub fn magnitude_squared(&self) -> (r: S)
        requires
            self.can_dot_with(*self),
        ensures
            r == self.dot_with(*self),
    {
        self.x.mul(self.x).add(self.y.mul(self.y))
    }

    /// The squared distance from `self` to `other`.
    pub fn distance_squared(self, other: Vector2<S>) -> (r: S)
        requires
            self.can_distance_squared(other),
        ensures
            r == self.distance_squared_spec(other),
    {
        let dx = other.x.sub(self.x);
        let dy = other.y.sub(self.y);
        dx.mul(dx).add(dy.mul(dy))
    }

    /// Interpolates linearly from `self` towards `other` by `amount`.
    pub fn lerp(self, other: Vector2<S>, amount: S) -> (r: Vector2<S>)
        requires
            self.can_lerp(other, amount),
        ensures
            r == self.lerp_spec(other, amount),
    {
        Vector2 {
            x: self.x.add(other.x.sub(self.x).mul(amount)),
            y: self.y.add(other.y.sub(self.y).mul(amount)),
        }
    }

    /// Appends `z` as a further component.
    pub fn extend(&self, z: S) -> (r: Vector3<S>)
        ensures
            r == self.extend_spec(z),
    {
        Vector3 { x: self.x, y: self.y, z }
    }

    /// The vector in homogeneous coordinates: a last component of zero is appended.
    pub fn to_homogeneous(&self) -> (r: Vector3<S>)
        ensures
            r == self.extend_spec(S::zero_spec()),
    {
        Vector3 { x: self.x, y: self.y, z: S::zero() }
    }

    /// Drops the last component.
    pub fn contract(&self) -> (r: Vector1<S>)
        ensures
            r == self.contract_spec(),
    {
        Vector1 { x: self.x }
    }

    /// Adds `other` to `self` in place.
    pub fn add_assign(&mut self, other: Vector2<S>)
        requires
            old(self).can_add(other),
        ensures
            *final(self) == old(self).plus(other),
    {
        self.x = self.x.add(other.x);
        self.y = self.y.add(other.y);
    }

    /// Subtracts `other` from `self` in place.
    pub fn sub_assign(&mut self, other: Vector2<S>)
        requires
            old(self).can_sub(other),
        ensures
            *final(self) == old(self).minus(other),
    {
        self.x = self.x.sub(other.x);
        self.y = self.y.sub(other.y);
    }

    /// Multiplies `self` by `c` in place.
    pub fn mul_assign(&mut self, c: S)
        requires
            old(self).can_scale(c),
        ensures
            *final(self) == old(self).scaled(c),
    {
        self.x = self.x.mul(c);
        self.y = self.y.mul(c);
    }

    /// Divides `self` by `c` in place.
    pub fn div_assign(&mut self, c: S)
        requires
            old(self).can_div(c),
        ensures
            *final(self) == old(self).over(c),
    {
        self.x = self.x.div(c);
        self.y = self.y.div(c);
    }

    /// Replaces each component by its remainder by `c`.
    pub fn rem_assign(&mut self, c: S)
        requires
            old(self).can_rem(c),
        ensures
            *final(self) == old(self).modulo(c),
    {
        self.x = self.x.rem(c);
        self.y = self.y.rem(c);
    }

    /// Multiplies each component by `c`, with `c` on the left of each product.
    pub fn scale_left(self, c: S) -> (r: Vector2<S>)
        requires
            self.can_scale_left(c),
        ensures
            r == self.scaled_left(c),
    {
        Vector2 { x: c.mul(self.x), y: c.mul(self.y) }
    }
}

impl<S: ScalarSigned> Vector2<S> {
    /// True when every component can be negated.
    pub open spec fn can_neg(self) -> bool {
        &&& self.x.can_neg()
        &&& self.y.can_neg()
    }

    /// The vector of the negated components.
    pub open spec fn negated(self) -> Vector2<S> {
        Vector2 { x: self.x.negated(), y: self.y.negated() }
    }

    /// Negates `self` in place.
    pub fn neg_mut(&mut self)
        requires
            old(self).can_neg(),
        ensures
            *final(self) == old(self).negated(),
    {
        self.x = self.x.neg();
        self.y = self.y.neg();
    }
}

impl<S: ScalarFloat> Vector2<S> {
    /// The length: the square root of the squared length.
    pub open spec fn magnitude_spec(self) -> S {
        self.dot_with(self).root()
    }

    /// True when the vector can be divided by its length.
    pub open spec fn can_normalize(self) -> bool {
        self.can_dot_with(self) && self.can_div(self.magnitude_spec())
    }

    /// The vector divided by its length.
    pub open spec fn normalize_spec(self) -> Vector2<S> {
        self.over(self.magnitude_spec())
    }

    /// True when the vector can be rescaled to the length `magnitude`.
    pub open spec fn can_normalize_to(self, magnitude: S) -> bool {
        &&& self.can_dot_with(self)
        &&& magnitude.can_div(self.magnitude_spec())
        &&& self.can_scale(magnitude.over(self.magnitude_spec()))
    }

    /// The vector multiplied by `magnitude` over its length.
    pub open spec fn normalize_to_spec(self, magnitude: S) -> Vector2<S> {
        self.scaled(magnitude.over(self.magnitude_spec()))
    }

    /// The length of the vector.
    pub fn magnitude(&self) -> (r: S)
        requires
            self.can_dot_with(*self),
        ensures
            r == self.magnitude_spec(),
    {
        self.magnitude_squared().sqrt()
    }

    /// The vector of length one in the direction of `self`.
    pub fn normalize(&self) -> (r: Vector2<S>)
        requires
            self.can_normalize(),
        ensures
            r == self.normalize_spec(),
    {
        let m = self.magnitude();
        Vector2 { x: self.x.div(m), y: self.y.div(m) }
    }

    /// The vector of length `magnitude` in the direction of `self`.
    pub fn normalize_to(&self, magnitude: S) -> (r: Vector2<S>)
        requires
            self.can_normalize_to(magnitude),
        ensures
            r == self.normalize_to_spec(magnitude),
    {
        let c = magnitude.div(self.magnitude());
        Vector2 { x: self.x.mul(c), y: self.y.mul(c) }
    }

    /// The distance from `self` to `other`.
    pub fn distance(self, other: Vector2<S>) -> (r: S)
        requires
            self.can_distance_squared(other),
        ensures
            r == self.distance_squared_spec(other).root(),
    {
        self.distance_squared(other).sqrt()
    }
}

impl<S: Scalar> DotProduct<Vector2<S>> for Vector2<S> {
    type Output = S;

    open spec fn can_dot(self, rhs: Vector2<S>) -> bool {
        self.can_dot_with(rhs)
    }

    open spec fn dot_spec(self, rhs: Vector2<S>) -> S {
        self.dot_with(rhs)
    }

    fn dot(self, rhs: Vector2<S>) -> (r: S) {
        self.x.mul(rhs.x).add(self.y.mul(rhs.y))
    }
}

impl<'b, S: Scalar> DotProduct<&'b Vector2<S>> for Vector2<S> {
    type Output = S;

    open spec fn can_dot(self, rhs: &'b Vector2<S>) -> bool {
        self.can_dot_with(*rhs)
    }

    open spec fn dot_spec(self, rhs: &'b Vector2<S>) -> S {
        self.dot_with(*rhs)
    }

    fn dot(self, rhs: &'b Vector2<S>) -> (r: S) {
        self.x.mul(rhs.x).add(self.y.mul(rhs.y))
    }
}

impl<'a, S: Scalar> DotProduct<Vector2<S>> for &'a Vector2<S> {
    type Output = S;

    open spec fn can_dot(self, rhs: Vector2<S>) -> bool {
        (*self).can_dot_with(rhs)
    }

    open spec fn dot_spec(self, rhs: Vector2<S>) -> S {
        (*self).dot_with(rhs)
    }

    fn dot(self, rhs: Vector2<S>) -> (r: S) {
        self.x.mul(rhs.x).add(self.y.mul(rhs.y))
    }
}

impl<'a, 'b, S: Scalar> DotProduct<&'b Vector2<S>> for &'a Vector2<S> {
    type Output = S;

    open spec fn can_dot(self, rhs: &'b Vector2<S>) -> bool {
        (*self).can_dot_with(*rhs)
    }

    open spec fn dot_spec(self, rhs: &'b Vector2<S>) -> S {
        (*self).dot_with(*rhs)
    }

    fn dot(self, rhs: &'b Vector2<S>) -> (r: S) {
        self.x.mul(rhs.x).add(self.y.mul(rhs.y))
    }
}

impl<S: Scalar> core::ops::Add<Vector2<S>> for Vector2<S> {
    type Output = Vector2<S>;

    fn add(self, other: Vector2<S>) -> (r: Vector2<S>) {
        Vector2 { x: self.x.add(other.x), y: self.y.add(other.y) }
    }
}

impl<S: Scalar> vstd::std_specs::ops::AddSpecImpl<Vector2<S>> for Vector2<S> {
    open spec fn obeys_add_spec() -> bool {
        true
    }

    open spec fn add_req(self, other: Vector2<S>) -> bool {
        self.can_add(other)
    }

    open spec fn add_spec(self, other: Vector2<S>) -> Vector2<S> {
        self.plus(other)
    }
}

impl<'b, S: Scalar> core::ops::Add<&'b Vector2<S>> for Vector2<S> {
    type Output = Vector2<S>;

    fn add(self, other: &'b Vector2<S>) -> (r: Vector2<S>) {
        Vector2 { x: self.x.add(other.x), y: self.y.add(other.y) }
    }
}

impl<'b, S: Scalar> vstd::std_specs::ops::AddSpecImpl<&'b Vector2<S>> for Vector2<S> {
    open spec fn obeys_add_spec() -> bool {
        true
    }

    open spec fn add_req(self, other: &'b Vector2<S>) -> bool {
        self.can_add(*other)
    }

    open spec fn add_spec(self, other: &'b Vector2<S>) -> Vector2<S> {
        self.plus(*other)
    }
}

impl<'a, S: Scalar> core::ops::Add<Vector2<S>> for &'a Vector2<S> {
    type Output = Vector2<S>;

    fn add(self, other: Vector2<S>) -> (r: Vector2<S>) {
        Vector2 { x: self.x.add(other.x), y: self.y.add(other.y) }
    }
}

impl<'a, S: Scalar> vstd::std_specs::ops::AddSpecImpl<Vector2<S>> for &'a Vector2<S> {
    open spec fn obeys_add_spec() -> bool {
        true
    }

    open spec fn add_req(self, other: Vector2<S>) -> bool {
        (*self).can_add(other)
    }

    open spec fn add_spec(self, other: Vector2<S>) -> Vector2<S> {
        (*self).plus(other)
    }
}

impl<'a, 'b, S: Scalar> core::ops::Add<&'b Vector2<S>> for &'a Vector2<S> {
    type Output = Vector2<S>;

    fn add(self, other: &'b Vector2<S>) -> (r: Vector2<S>) {
        Vector2 { x: self.x.add(other.x), y: self.y.add(other.y) }
    }
}

impl<'a, 'b, S: Scalar> vstd::std_specs::ops::AddSpecImpl<&'b Vector2<S>> for &'a Vector2<S> {
    open spec fn obeys_add_spec() -> bool {
        true
    }

    open spec fn add_req(self, other: &'b Vector2<S>) -> bool {
        (*self).can_add(*other)
    }

    open spec fn add_spec(self, other: &'b Vector2<S>) -> Vector2<S> {
        (*self).plus(*other)
    }
}

impl<S: Scalar> core::ops::Sub<Vector2<S>> for Vector2<S> {
    type Output = Vector2<S>;

    fn sub(self, other: Vector2<S>) -> (r: Vector2<S>) {
        Vector2 { x: self.x.sub(other.x), y: self.y.sub(other.y) }
    }
}

impl<S: Scalar> vstd::std_specs::ops::SubSpecImpl<Vector2<S>> for Vector2<S> {
    open spec fn obeys_sub_spec() -> bool {
        true
    }

    open spec fn sub_req(self, other: Vector2<S>) -> bool {
        self.can_sub(other)
    }

    open spec fn sub_spec(self, other: Vector2<S>) -> Vector2<S> {
        self.minus(other)
    }
}

impl<'b, S: Scalar> core::ops::Sub<&'b Vector2<S>> for Vector2<S> {
    type Output = Vector2<S>;

    fn sub(self, other: &'b Vector2<S>) -> (r: Vector2<S>) {
        Vector2 { x: self.x.sub(other.x), y: self.y.sub(other.y) }
    }
}

impl<'b, S: Scalar> vstd::std_specs::ops::SubSpecImpl<&'b Vector2<S>> for Vector2<S> {
    open spec fn obeys_sub_spec() -> bool {
        true
    }

    open spec fn sub_req(self, other: &'b Vector2<S>) -> bool {
        self.can_sub(*other)
    }

    open spec fn sub_spec(self, other: &'b Vector2<S>) -> Vector2<S> {
        self.minus(*other)
    }
}

impl<'a, S: Scalar> core::ops::Sub<Vector2<S>> for &'a Vector2<S> {
    type Output = Vector2<S>;

    fn sub(self, other: Vector2<S>) -> (r: Vector2<S>) {
        Vector2 { x: self.x.sub(other.x), y: self.y.sub(other.y) }
    }
}

impl<'a, S: Scalar> vstd::std_specs::ops::SubSpecImpl<Vector2<S>> for &'a Vector2<S> {
    open spec fn obeys_sub_spec() -> bool {
        true
    }

    open spec fn sub_req(self, other: Vector2<S>) -> bool {
        (*self).can_sub(other)
    }

    open spec fn sub_spec(self, other: Vector2<S>) -> Vector2<S> {
        (*self).minus(other)
    }
}

impl<'a, 'b, S: Scalar> core::ops::Sub<&'b Vector2<S>> for &'a Vector2<S> {
    type Output = Vector2<S>;

    fn sub(self, other: &'b Vector2<S>) -> (r: Vector2<S>) {
        Vector2 { x: self.x.sub(other.x), y: self.y.sub(other.y) }
    }
}

impl<'a, 'b, S: Scalar> vstd::std_specs::ops::SubSpecImpl<&'b Vector2<S>> for &'a Vector2<S> {
    open spec fn obeys_sub_spec() -> bool {
        true
    }

    open spec fn sub_req(self, other: &'b Vector2<S>) -> bool {
        (*self).can_sub(*other)
    }

    open spec fn sub_spec(self, other: &'b Vector2<S>) -> Vector2<S> {
        (*self).minus(*other)
    }
}

impl<S: Scalar> core::ops::Mul<S> for Vector2<S> {
    type Output = Vector2<S>;

    fn mul(self, other: S) -> (r: Vector2<S>) {
        Vector2 { x: self.x.mul(other), y: self.y.mul(other) }
    }
}

impl<S: Scalar> vstd::std_specs::ops::MulSpecImpl<S> for Vector2<S> {
    open spec fn obeys_mul_spec() -> bool {
        true
    }

    open spec fn mul_req(self, other: S) -> bool {
        self.can_scale(other)
    }

    open spec fn mul_spec(self, other: S) -> Vector2<S> {
        self.scaled(other)
    }
}

impl<'a, S: Scalar> core::ops::Mul<S> for &'a Vector2<S> {
    type Output = Vector2<S>;

    fn mul(self, other: S) -> (r: Vector2<S>) {
        Vector2 { x: self.x.mul(other), y: self.y.mul(other) }
    }
}

impl<'a, S: Scalar> vstd::std_specs::ops::MulSpecImpl<S> for &'a Vector2<S> {
    open spec fn obeys_mul_spec() -> bool {
        true
    }

    open spec fn mul_req(self, other: S) -> bool {
        (*self).can_scale(other)
    }

    open spec fn mul_spec(self, other: S) -> Vector2<S> {
        (*self).scaled(other)
    }
}

impl<S: Scalar> core::ops::Div<S> for Vector2<S> {
    type Output = Vector2<S>;

    fn div(self, other: S) -> (r: Vector2<S>) {
        Vector2 { x: self.x.div(other), y: self.y.div(other) }
    }
}

impl<S: Scalar> vstd::std_specs::ops::DivSpecImpl<S> for Vector2<S> {
    open spec fn obeys_div_spec() -> bool {
        true
    }

    open spec fn div_req(self, other: S) -> bool {
        self.can_div(other)
    }

    open spec fn div_spec(self, other: S) -> Vector2<S> {
        self.over(other)
    }
}

impl<'a, S: Scalar> core::ops::Div<S> for &'a Vector2<S> {
    type Output = Vector2<S>;

    fn div(self, other: S) -> (r: Vector2<S>) {
        Vector2 { x: self.x.div(other), y: self.y.div(other) }
    }
}

impl<'a, S: Scalar> vstd::std_specs::ops::DivSpecImpl<S> for &'a Vector2<S> {
    open spec fn obeys_div_spec() -> bool {
        true
    }

    open spec fn div_req(self, other: S) -> bool {
        (*self).can_div(other)
    }

    open spec fn div_spec(self, other: S) -> Vector2<S> {
        (*self).over(other)
    }
}

impl<S: Scalar> core::ops::Rem<S> for Vector2<S> {
    type Output = Vector2<S>;

    fn rem(self, other: S) -> (r: Vector2<S>) {
        Vector2 { x: self.x.rem(other), y: self.y.rem(other) }
    }
}

impl<S: Scalar> vstd::std_specs::ops::RemSpecImpl<S> for Vector2<S> {
    open spec fn obeys_rem_spec() -> bool {
        true
    }

    open spec fn rem_req(self, other: S) -> bool {
        self.can_rem(other)
    }

    open spec fn rem_spec(self, other: S) -> Vector2<S> {
        self.modulo(other)
    }
}

impl<'a, S: Scalar> core::ops::Rem<S> for &'a Vector2<S> {
    type Output = Vector2<S>;

    fn rem(self, other: S) -> (r: Vector2<S>) {
        Vector2 { x: self.x.rem(other), y: self.y.rem(other) }
    }
}

impl<'a, S: Scalar> vstd::std_specs::ops::RemSpecImpl<S> for &'a Vector2<S> {
    open spec fn obeys_rem_spec() -> bool {
        true
    }

    open spec fn rem_req(self, other: S) -> bool {
        (*self).can_rem(other)
    }

    open spec fn rem_spec(self, other: S) -> Vector2<S> {
        (*self).modulo(other)
    }
}

impl<S: ScalarSigned> core::ops::Neg for Vector2<S> {
    type Output = Vector2<S>;

    fn neg(self) -> (r: Vector2<S>) {
        Vector2 { x: self.x.neg(), y: self.y.neg() }
    }
}

impl<S: ScalarSigned> vstd::std_specs::ops::NegSpecImpl for Vector2<S> {
    open spec fn obeys_neg_spec() -> bool {
        true
    }

    open spec fn neg_req(self) -> bool {
        self.can_neg()
    }

    open spec fn neg_spec(self) -> Vector2<S> {
        self.negated()
    }
}

impl<'a, S: ScalarSigned> core::ops::Neg for &'a Vector2<S> {
    type Output = Vector2<S>;

    fn neg(self) -> (r: Vector2<S>) {
        Vector2 { x: self.x.neg(), y: self.y.neg() }
    }
}

impl<'a, S: ScalarSigned> vstd::std_specs::ops::NegSpecImpl for &'a Vector2<S> {
    open spec fn obeys_neg_spec() -> bool {
        true
    }

    open spec fn neg_req(self) -> bool {
        (*self).can_neg()
    }

    open spec fn neg_spec(self) -> Vector2<S> {
        (*self).negated()
    }
}

impl<S: Scalar> core::ops::Index<usize> for Vector2<S> {
    type Output = S;

    fn index(&self, index: usize) -> (r: &S)
        ensures
            *r == self.at(index as int),
    {
        if index == 0 {
            &self.x
        } else if index == 1 {
            &self.y
        } else {
            vstd::pervasive::unreached()
        }
    }
}

impl<S: Scalar> vstd::std_specs::core::IndexSpecImpl<usize> for Vector2<S> {
    open spec fn index_req(&self, index: &usize) -> bool {
        *index < 2
    }
}

impl<S: Scalar> core::convert::From<(S, S)> for Vector2<S> {
    fn from(v: (S, S)) -> (r: Vector2<S>) {
        Vector2 { x: v.0, y: v.1 }
    }
}

impl<S: Scalar> vstd::std_specs::convert::FromSpecImpl<(S, S)> for Vector2<S> {
    open spec fn obeys_from_spec() -> bool {
        true
    }

    open spec fn from_spec(v: (S, S)) -> Vector2<S> {
        Vector2 { x: v.0, y: v.1 }
    }
}

impl<S: Scalar> core::convert::From<[S; 2]> for Vector2<S> {
    fn from(v: [S; 2]) -> (r: Vector2<S>) {
        Vector2 { x: v[0], y: v[1] }
    }
}

impl<S: Scalar> vstd::std_specs::convert::FromSpecImpl<[S; 2]> for Vector2<S> {
    open spec fn obeys_from_spec() -> bool {
        true
    }

    open spec fn from_spec(v: [S; 2]) -> Vector2<S> {
        Vector2 { x: v@[0], y: v@[1] }
    }
}

impl<'a, S: Scalar> core::convert::From<&'a [S; 2]> for Vector2<S> {
    fn from(v: &'a [S; 2]) -> (r: Vector2<S>) {
        Vector2 { x: v[0], y: v[1] }
    }
}

impl<'a, S: Scalar> vstd::std_specs::convert::FromSpecImpl<&'a [S; 2]> for Vector2<S> {
    open spec fn obeys_from_spec() -> bool {
        true
    }

    open spec fn from_spec(v: &'a [S; 2]) -> Vector2<S> {
        Vector2 { x: v@[0], y: v@[1] }
    }
}

/// A vector with three components.
#[derive(Clone, Copy, Debug, PartialEq, Eq, Hash)]
pub struct Vector3<S> {
    pub x: S,
    pub y: S,
    pub z: S,
}

impl<S: Scalar> Vector3<S> {
    /// The component at index `i`, counted from zero.
    pub open spec fn at(self, i: int) -> S {
        if i == 0 {
            self.x
        } else if i == 1 {
            self.y
        } else {
            self.z
        }
    }

    /// The vector with `value` at index `i` and the other components of `self`.
    pub open spec fn with(self, i: int, value: S) -> Vector3<S> {
        Vector3 {
            x: if i == 0 { value } else { self.x },
            y: if i == 1 { value } else { self.y },
            z: if i == 2 { value } else { self.z },
        }
    }

    /// The vector whose components are all zero.
    pub open spec fn zero_spec() -> Vector3<S> {
        Vector3 { x: S::zero_spec(), y: S::zero_spec(), z: S::zero_spec() }
    }

    /// The vector whose components are all `value`.
    pub open spec fn fill_spec(value: S) -> Vector3<S> {
        Vector3 { x: value, y: value, z: value }
    }

    /// The unit vector along the x-axis.
    pub open spec fn unit_x_spec() -> Vector3<S> {
        Vector3 { x: S::one_spec(), y: S::zero_spec(), z: S::zero_spec() }
    }

    /// The unit vector along the y-axis.
    pub open spec fn unit_y_spec() -> Vector3<S> {
        Vector3 { x: S::zero_spec(), y: S::one_spec(), z: S::zero_spec() }
    }

    /// The unit vector along the z-axis.
    pub open spec fn unit_z_spec() -> Vector3<S> {
        Vector3 { x: S::zero_spec(), y: S::zero_spec(), z: S::one_spec() }
    }

    /// True when every component of `self` is the same as zero.
    pub open spec fn is_zero_spec(self) -> bool {
        &&& self.x.same(S::zero_spec())
        &&& self.y.same(S::zero_spec())
        &&& self.z.same(S::zero_spec())
    }

    /// True when each component of `self` can be added to that of `other`.
    pub open spec fn can_add(self, other: Vector3<S>) -> bool {
        &&& self.x.can_add(other.x)
        &&& self.y.can_add(other.y)
        &&& self.z.can_add(other.z)
    }

    /// The component-wise sum.
    pub open spec fn plus(self, other: Vector3<S>) -> Vector3<S> {
        Vector3 { x: self.x.plus(other.x), y: self.y.plus(other.y), z: self.z.plus(other.z) }
    }

    /// True when each component of `other` can be subtracted from that of `self`.
    pub open spec fn can_sub(self, other: Vector3<S>) -> bool {
        &&& self.x.can_sub(other.x)
        &&& self.y.can_sub(other.y)
        &&& self.z.can_sub(other.z)
    }

    /// The component-wise difference.
    pub open spec fn minus(self, other: Vector3<S>) -> Vector3<S> {
        Vector3 { x: self.x.minus(other.x), y: self.y.minus(other.y), z: self.z.minus(other.z) }
    }

    /// True when each component can be multiplied by `c` on the right.
    pub open spec fn can_scale(self, c: S) -> bool {
        &&& self.x.can_mul(c)
        &&& self.y.can_mul(c)
        &&& self.z.can_mul(c)
    }

    /// Each component multiplied by `c` on the right.
    pub open spec fn scaled(self, c: S) -> Vector3<S> {
        Vector3 { x: self.x.times(c), y: self.y.times(c), z: self.z.times(c) }
    }

    /// True when each component can be multiplied by `c` on the left.
    pub open spec fn can_scale_left(self, c: S) -> bool {
        &&& c.can_mul(self.x)
        &&& c.can_mul(self.y)
        &&& c.can_mul(self.z)
    }

    /// Each component multiplied by `c` on the left.
    pub open spec fn scaled_left(self, c: S) -> Vector3<S> {
        Vector3 { x: c.times(self.x), y: c.times(self.y), z: c.times(self.z) }
    }

    /// True when each component can be divided by `c`.
    pub open spec fn can_div(self, c: S) -> bool {
        &&& self.x.can_div(c)
        &&& self.y.can_div(c)
        &&& self.z.can_div(c)
    }

    /// Each component divided by `c`.
    pub open spec fn over(self, c: S) -> Vector3<S> {
        Vector3 { x: self.x.over(c), y: self.y.over(c), z: self.z.over(c) }
    }

    /// True when the remainder of each component by `c` is defined.
    pub open spec fn can_rem(self, c: S) -> bool {
        &&& self.x.can_rem(c)
        &&& self.y.can_rem(c)
        &&& self.z.can_rem(c)
    }

    /// The remainder of each component by `c`.
    pub open spec fn modulo(self, c: S) -> Vector3<S> {
        Vector3 { x: self.x.modulo(c), y: self.y.modulo(c), z: self.z.modulo(c) }
    }

    /// True when the interpolation towards `other` by `amount` is defined.
    pub open spec fn can_lerp(self, other: Vector3<S>, amount: S) -> bool {
        &&& other.x.can_sub(self.x)
        &&& other.x.minus(self.x).can_mul(amount)
        &&& self.x.can_add(other.x.minus(self.x).times(amount))
        &&& other.y.can_sub(self.y)
        &&& other.y.minus(self.y).can_mul(amount)
        &&& self.y.can_add(other.y.minus(self.y).times(amount))
        &&& other.z.can_sub(self.z)
        &&& other.z.minus(self.z).can_mul(amount)
        &&& self.z.can_add(other.z.minus(self.z).times(amount))
    }

    /// The interpolation `self + (other - self) * amount`, component by component.
    pub open spec fn lerp_spec(self, other: Vector3<S>, amount: S) -> Vector3<S> {
        Vector3 {
            x: self.x.plus(other.x.minus(self.x).times(amount)),
            y: self.y.plus(other.y.minus(self.y).times(amount)),
            z: self.z.plus(other.z.minus(self.z).times(amount)),
        }
    }

    /// True when every product and partial sum of the dot product is defined.
    pub open spec fn can_dot_with(self, other: Vector3<S>) -> bool {
        &&& self.x.can_mul(other.x)
        &&& self.y.can_mul(other.y)
        &&& self.x.times(other.x).can_add(self.y.times(other.y))
        &&& self.z.can_mul(other.z)
        &&& self.x.times(other.x).plus(self.y.times(other.y)).can_add(self.z.times(other.z))
    }

    /// The dot product: the products of the components, added from the first on.
    pub open spec fn dot_with(self, other: Vector3<S>) -> S {
        self.x.times(other.x).plus(self.y.times(other.y)).plus(self.z.times(other.z))
    }

    /// True when the squared distance to `other` is defined.
    pub open spec fn can_distance_squared(self, other: Vector3<S>) -> bool {
        &&& other.x.can_sub(self.x)
        &&& other.x.minus(self.x).can_mul(other.x.minus(self.x))
        &&& other.y.can_sub(self.y)
        &&& other.y.minus(self.y).can_mul(other.y.minus(self.y))
        &&& other.x.minus(self.x).times(other.x.minus(self.x)).can_add(other.y.minus(self.y)
            .times(other.y.minus(self.y)))
        &&& other.z.can_sub(self.z)
        &&& other.z.minus(self.z).can_mul(other.z.minus(self.z))
        &&& other.x.minus(self.x).times(other.x.minus(self.x)).plus(other.y.minus(self.y)
            .times(other.y.minus(self.y))).can_add(other.z.minus(self.z).times(other.z
            .minus(self.z)))
    }

    /// The squared distance: the squares of the component differences
    /// `other - self`, added from the first on.
    pub open spec fn distance_squared_spec(self, other: Vector3<S>) -> S {
        other.x.minus(self.x).times(other.x.minus(self.x)).plus(other.y.minus(self.y)
            .times(other.y.minus(self.y))).plus(other.z.minus(self.z).times(other.z.minus(self.z)))
    }

    /// True when every product and difference of the cross product is defined.
    pub open spec fn can_cross(self, other: Vector3<S>) -> bool {
        &&& self.y.can_mul(other.z)
        &&& self.z.can_mul(other.y)
        &&& self.y.times(other.z).can_sub(self.z.times(other.y))
        &&& self.z.can_mul(other.x)
        &&& self.x.can_mul(other.z)
        &&& self.z.times(other.x).can_sub(self.x.times(other.z))
        &&& self.x.can_mul(other.y)
        &&& self.y.can_mul(other.x)
        &&& self.x.times(other.y).can_sub(self.y.times(other.x))
    }

    /// The cross product `self x other`.
    pub open spec fn cross_spec(self, other: Vector3<S>) -> Vector3<S> {
        Vector3 {
            x: self.y.times(other.z).minus(self.z.times(other.y)),
            y: self.z.times(other.x).minus(self.x.times(other.z)),
            z: self.x.times(other.y).minus(self.y.times(other.x)),
        }
    }

    /// The vector of one more component, with `w` as the last.
    pub open spec fn extend_spec(self, w: S) -> Vector4<S> {
        Vector4 { x: self.x, y: self.y, z: self.z, w }
    }

    /// The vector without its last component.
    pub open spec fn contract_spec(self) -> Vector2<S> {
        Vector2 { x: self.x, y: self.y }
    }

    /// Makes a vector from its components.
    pub fn new(x: S, y: S, z: S) -> (r: Vector3<S>)
        ensures
            r == (Vector3 { x: x, y: y, z: z }),
    {
        Vector3 { x, y, z }
    }

    /// The zero vector.
    pub fn zero() -> (r: Vector3<S>)
        ensures
            r == Self::zero_spec(),
    {
        Vector3 { x: S::zero(), y: S::zero(), z: S::zero() }
    }

    /// The vector whose components all equal `value`.
    pub fn from_fill(value: S) -> (r: Vector3<S>)
        ensures
            r == Self::fill_spec(value),
    {
        Vector3 { x: value, y: value, z: value }
    }

    /// The unit vector along the x-axis.
    pub fn unit_x() -> (r: Vector3<S>)
        ensures
            r == Self::unit_x_spec(),
    {
        Vector3 { x: S::one(), y: S::zero(), z: S::zero() }
    }

    /// The unit vector along the y-axis.
    pub fn unit_y() -> (r: Vector3<S>)
        ensures
            r == Self::unit_y_spec(),
    {
        Vector3 { x: S::zero(), y: S::one(), z: S::zero() }
    }

    /// The unit vector along the z-axis.
    pub fn unit_z() -> (r: Vector3<S>)
        ensures
            r == Self::unit_z_spec(),
    {
        Vector3 { x: S::zero(), y: S::zero(), z: S::one() }
    }

    /// The number of components.
    pub fn len() -> (r: usize)
        ensures
            r == 3,
    {
        3
    }

    /// The shape as a pair of the number of rows and the number of columns.
    pub fn shape() -> (r: (usize, usize))
        ensures
            r == (3usize, 1usize),
    {
        (3, 1)
    }

    /// The components in order, as an array.
    pub fn to_array(&self) -> (r: [S; 3])
        ensures
            r@ == seq![self.x, self.y, self.z],
    {
        [self.x, self.y, self.z]
    }

    /// Replaces the component at `index` by `value`.
    pub fn set(&mut self, index: usize, value: S)
        requires
            index < 3,
        ensures
            *final(self) == old(self).with(index as int, value),
    {
        if index == 0 {
            self.x = value;
        } else if index == 1 {
            self.y = value;
        } else {
            self.z = value;
        }
    }

    /// Tells whether every component is zero.
    pub fn is_zero(&self) -> (r: bool)
        ensures
            r == self.is_zero_spec(),
    {
        self.x.equals(S::zero()) && self.y.equals(S::zero()) && self.z.equals(S::zero())
    }

    /// The squared length: the dot product of the vector with itself.
    pub fn magnitude_squared(&self) -> (r: S)
        requires
            self.can_dot_with(*self),
        ensures
            r == self.dot_with(*self),
    {
        self.x.mul(self.x).add(self.y.mul(self.y)).add(self.z.mul(self.z))
    }

    /// The squared distance from `self` to `other`.
    pub fn distance_squared(self, other: Vector3<S>) -> (r: S)
        requires
            self.can_distance_squared(other),
        ensures
            r == self.distance_squared_spec(other),
    {
        let dx = other.x.sub(self.x);
        let dy = other.y.sub(self.y);
        let dz = other.z.sub(self.z);
        dx.mul(dx).add(dy.mul(dy)).add(dz.mul(dz))
    }

    /// Interpolates linearly from `self` towards `other` by `amount`.
    pub fn lerp(self, other: Vector3<S>, amount: S) -> (r: Vector3<S>)
        requires
            self.can_lerp(other, amount),
        ensures
            r == self.lerp_spec(other, amount),
    {
        Vector3 {
            x: self.x.add(other.x.sub(self.x).mul(amount)),
            y: self.y.add(other.y.sub(self.y).mul(amount)),
            z: self.z.add(other.z.sub(self.z).mul(amount)),
        }
    }

    /// The cross product `self x other`.
    pub fn cross(&self, other: &Vector3<S>) -> (r: Vector3<S>)
        requires
            self.can_cross(*other),
        ensures
            r == self.cross_spec(*other),
    {
        Vector3 {
            x: self.y.mul(other.z).sub(self.z.mul(other.y)),
            y: self.z.mul(other.x).sub(self.x.mul(other.z)),
            z: self.x.mul(other.y).sub(self.y.mul(other.x)),
        }
    }

    /// Appends `w` as a further component.
    pub fn extend(&self, w: S) -> (r: Vector4<S>)
        ensures
            r == self.extend_spec(w),
    {
        Vector4 { x: self.x, y: self.y, z: self.z, w }
    }

    /// The vector in homogeneous coordinates: a last component of zero is appended.
    pub fn to_homogeneous(&self) -> (r: Vector4<S>)
        ensures
            r == self.extend_spec(S::zero_spec()),
    {
        Vector4 { x: self.x, y: self.y, z: self.z, w: S::zero() }
    }

    /// Drops the last component.
    pub fn contract(&self) -> (r: Vector2<S>)
        ensures
            r == self.contract_spec(),
    {
        Vector2 { x: self.x, y: self.y }
    }

    /// Adds `other` to `self` in place.
    pub fn add_assign(&mut self, other: Vector3<S>)
        requires
            old(self).can_add(other),
        ensures
            *final(self) == old(self).plus(other),
    {
        self.x = self.x.add(other.x);
        self.y = self.y.add(other.y);
        self.z = self.z.add(other.z);
    }

    /// Subtracts `other` from `self` in place.
    pub fn sub_assign(&mut self, other: Vector3<S>)
        requires
            old(self).can_sub(other),
        ensures
            *final(self) == old(self).minus(other),
    {
        self.x = self.x.sub(other.x);
        self.y = self.y.sub(other.y);
        self.z = self.z.sub(other.z);
    }

    /// Multiplies `self` by `c` in place.
    pub fn mul_assign(&mut self, c: S)
        requires
            old(self).can_scale(c),
        ensures
            *final(self) == old(self).scaled(c),
    {
        self.x = self.x.mul(c);
        self.y = self.y.mul(c);
        self.z = self.z.mul(c);
    }

    /// Divides `self` by `c` in place.
    pub fn div_assign(&mut self, c: S)
        requires
            old(self).can_div(c),
        ensures
            *final(self) == old(self).over(c),
    {
        self.x = self.x.div(c);
        self.y = self.y.div(c);
        self.z = self.z.div(c);
    }

    /// Replaces each component by its remainder by `c`.
    pub fn rem_assign(&mut self, c: S)
        requires
            old(self).can_rem(c),
        ensures
            *final(self) == old(self).modulo(c),
    {
        self.x = self.x.rem(c);
        self.y = self.y.rem(c);
        self.z = self.z.rem(c);
    }

    /// Multiplies each component by `c`, with `c` on the left of each product.
    pub fn scale_left(self, c: S) -> (r: Vector3<S>)
        requires
            self.can_scale_left(c),
        ensures
            r == self.scaled_left(c),
    {
        Vector3 { x: c.mul(self.x), y: c.mul(self.y), z: c.mul(self.z) }
    }
}

impl<S: ScalarSigned> Vector3<S> {
    /// True when every component can be negated.
    pub open spec fn can_neg(self) -> bool {
        &&& self.x.can_neg()
        &&& self.y.can_neg()
        &&& self.z.can_neg()
    }

    /// The vector of the negated components.
    pub open spec fn negated(self) -> Vector3<S> {
        Vector3 { x: self.x.negated(), y: self.y.negated(), z: self.z.negated() }
    }

    /// Negates `self` in place.
    pub fn neg_mut(&mut self)
        requires
            old(self).can_neg(),
        ensures
            *final(self) == old(self).negated(),
    {
        self.x = self.x.neg();
        self.y = self.y.neg();
        self.z = self.z.neg();
    }
}

impl<S: ScalarFloat> Vector3<S> {
    /// The length: the square root of the squared length.
    pub open spec fn magnitude_spec(self) -> S {
        self.dot_with(self).root()
    }

    /// True when the vector can be divided by its length.
    pub open spec fn can_normalize(self) -> bool {
        self.can_dot_with(self) && self.can_div(self.magnitude_spec())
    }

    /// The vector divided by its length.
    pub open spec fn normalize_spec(self) -> Vector3<S> {
        self.over(self.magnitude_spec())
    }

    /// True when the vector can be rescaled to the length `magnitude`.
    pub open spec fn can_normalize_to(self, magnitude: S) -> bool {
        &&& self.can_dot_with(self)
        &&& magnitude.can_div(self.magnitude_spec())
        &&& self.can_scale(magnitude.over(self.magnitude_spec()))
    }

    /// The vector multiplied by `magnitude` over its length.
    pub open spec fn normalize_to_spec(self, magnitude: S) -> Vector3<S> {
        self.scaled(magnitude.over(self.magnitude_spec()))
    }

    /// The length of the vector.
    pub fn magnitude(&self) -> (r: S)
        requires
            self.can_dot_with(*self),
        ensures
            r == self.magnitude_spec(),
    {
        self.magnitude_squared().sqrt()
    }

    /// The vector of length one in the direction of `self`.
    pub fn normalize(&self) -> (r: Vector3<S>)
        requires
            self.can_normalize(),
        ensures
            r == self.normalize_spec(),
    {
        let m = self.magnitude();
        Vector3 { x: self.x.div(m), y: self.y.div(m), z: self.z.div(m) }
    }

    /// The vector of length `magnitude` in the direction of `self`.
    pub fn normalize_to(&self, magnitude: S) -> (r: Vector3<S>)
        requires
            self.can_normalize_to(magnitude),
        ensures
            r == self.normalize_to_spec(magnitude),
    {
        let c = magnitude.div(self.magnitude());
        Vector3 { x: self.x.mul(c), y: self.y.mul(c), z: self.z.mul(c) }
    }

    /// The distance from `self` to `other`.
    pub fn distance(self, other: Vector3<S>) -> (r: S)
        requires
            self.can_distance_squared(other),
        ensures
            r == self.distance_squared_spec(other).root(),
    {
        self.distance_squared(other).sqrt()
    }
}

impl<S: Scalar> DotProduct<Vector3<S>> for Vector3<S> {
    type Output = S;

    open spec fn can_dot(self, rhs: Vector3<S>) -> bool {
        self.can_dot_with(rhs)
    }

    open spec fn dot_spec(self, rhs: Vector3<S>) -> S {
        self.dot_with(rhs)
    }

    fn dot(self, rhs: Vector3<S>) -> (r: S) {
        self.x.mul(rhs.x).add(self.y.mul(rhs.y)).add(self.z.mul(rhs.z))
    }
}

impl<'b, S: Scalar> DotProduct<&'b Vector3<S>> for Vector3<S> {
    type Output = S;

    open spec fn can_dot(self, rhs: &'b Vector3<S>) -> bool {
        self.can_dot_with(*rhs)
    }

    open spec fn dot_spec(self, rhs: &'b Vector3<S>) -> S {
        self.dot_with(*rhs)
    }

    fn dot(self, rhs: &'b Vector3<S>) -> (r: S) {
        self.x.mul(rhs.x).add(self.y.mul(rhs.y)).add(self.z.mul(rhs.z))
    }
}

impl<'a, S: Scalar> DotProduct<Vector3<S>> for &'a Vector3<S> {
    type Output = S;

    open spec fn can_dot(self, rhs: Vector3<S>) -> bool {
        (*self).can_dot_with(rhs)
    }

    open spec fn dot_spec(self, rhs: Vector3<S>) -> S {
        (*self).dot_with(rhs)
    }

    fn dot(self, rhs: Vector3<S>) -> (r: S) {
        self.x.mul(rhs.x).add(self.y.mul(rhs.y)).add(self.z.mul(rhs.z))
    }
}

impl<'a, 'b, S: Scalar> DotProduct<&'b Vector3<S>> for &'a Vector3<S> {
    type Output = S;

    open spec fn can_dot(self, rhs: &'b Vector3<S>) -> bool {
        (*self).can_dot_with(*rhs)
    }

    open spec fn dot_spec(self, rhs: &'b Vector3<S>) -> S {
        (*self).dot_with(*rhs)
    }

    fn dot(self, rhs: &'b Vector3<S>) -> (r: S) {
        self.x.mul(rhs.x).add(self.y.mul(rhs.y)).add(self.z.mul(rhs.z))
    }
}

impl<S: Scalar> core::ops::Add<Vector3<S>> for Vector3<S> {
    type Output = Vector3<S>;

    fn add(self, other: Vector3<S>) -> (r: Vector3<S>) {
        Vector3 { x: self.x.add(other.x), y: self.y.add(other.y), z: self.z.add(other.z) }
    }
}

impl<S: Scalar> vstd::std_specs::ops::AddSpecImpl<Vector3<S>> for Vector3<S> {
    open spec fn obeys_add_spec() -> bool {
        true
    }

    open spec fn add_req(self, other: Vector3<S>) -> bool {
        self.can_add(other)
    }

    open spec fn add_spec(self, other: Vector3<S>) -> Vector3<S> {
        self.plus(other)
    }
}

impl<'b, S: Scalar> core::ops::Add<&'b Vector3<S>> for Vector3<S> {
    type Output = Vector3<S>;

    fn add(self, other: &'b Vector3<S>) -> (r: Vector3<S>) {
        Vector3 { x: self.x.add(other.x), y: self.y.add(other.y), z: self.z.add(other.z) }
    }
}

impl<'b, S: Scalar> vstd::std_specs::ops::AddSpecImpl<&'b Vector3<S>> for Vector3<S> {
    open spec fn obeys_add_spec() -> bool {
        true
    }

    open spec fn add_req(self, other: &'b Vector3<S>) -> bool {
        self.can_add(*other)
    }

    open spec fn add_spec(self, other: &'b Vector3<S>) -> Vector3<S> {
        self.plus(*other)
    }
}

impl<'a, S: Scalar> core::ops::Add<Vector3<S>> for &'a Vector3<S> {
    type Output = Vector3<S>;

    fn add(self, other: Vector3<S>) -> (r: Vector3<S>) {
        Vector3 { x: self.x.add(other.x), y: self.y.add(other.y), z: self.z.add(other.z) }
    }
}

impl<'a, S: Scalar> vstd::std_specs::ops::AddSpecImpl<Vector3<S>> for &'a Vector3<S> {
    open spec fn obeys_add_spec() -> bool {
        true
    }

    open spec fn add_req(self, other: Vector3<S>) -> bool {
        (*self).can_add(other)
    }

    open spec fn add_spec(self, other: Vector3<S>) -> Vector3<S> {
        (*self).plus(other)
    }
}

impl<'a, 'b, S: Scalar> core::ops::Add<&'b Vector3<S>> for &'a Vector3<S> {
    type Output = Vector3<S>;

    fn add(self, other: &'b Vector3<S>) -> (r: Vector3<S>) {
        Vector3 { x: self.x.add(other.x), y: self.y.add(other.y), z: self.z.add(other.z) }
    }
}

impl<'a, 'b, S: Scalar> vstd::std_specs::ops::AddSpecImpl<&'b Vector3<S>> for &'a Vector3<S> {
    open spec fn obeys_add_spec() -> bool {
        true
    }

    open spec fn add_req(self, other: &'b Vector3<S>) -> bool {
        (*self).can_add(*other)
    }

    open spec fn add_spec(self, other: &'b Vector3<S>) -> Vector3<S> {
        (*self).plus(*other)
    }
}

impl<S: Scalar> core::ops::Sub<Vector3<S>> for Vector3<S> {
    type Output = Vector3<S>;

    fn sub(self, other: Vector3<S>) -> (r: Vector3<S>) {
        Vector3 { x: self.x.sub(other.x), y: self.y.sub(other.y), z: self.z.sub(other.z) }
    }
}

impl<S: Scalar> vstd::std_specs::ops::SubSpecImpl<Vector3<S>> for Vector3<S> {
    open spec fn obeys_sub_spec() -> bool {
        true
    }

    open spec fn sub_req(self, other: Vector3<S>) -> bool {
        self.can_sub(other)
    }

    open spec fn sub_spec(self, other: Vector3<S>) -> Vector3<S> {
        self.minus(other)
    }
}

impl<'b, S: Scalar> core::ops::Sub<&'b Vector3<S>> for Vector3<S> {
    type Output = Vector3<S>;

    fn sub(self, other: &'b Vector3<S>) -> (r: Vector3<S>) {
        Vector3 { x: self.x.sub(other.x), y: self.y.sub(other.y), z: self.z.sub(other.z) }
    }
}

impl<'b, S: Scalar> vstd::std_specs::ops::SubSpecImpl<&'b Vector3<S>> for Vector3<S> {
    open spec fn obeys_sub_spec() -> bool {
        true
    }

    open spec fn sub_req(self, other: &'b Vector3<S>) -> bool {
        self.can_sub(*other)
    }

    open spec fn sub_spec(self, other: &'b Vector3<S>) -> Vector3<S> {
        self.minus(*other)
    }
}

impl<'a, S: Scalar> core::ops::Sub<Vector3<S>> for &'a Vector3<S> {
    type Output = Vector3<S>;

    fn sub(self, other: Vector3<S>) -> (r: Vector3<S>) {
        Vector3 { x: self.x.sub(other.x), y: self.y.sub(other.y), z: self.z.sub(other.z) }
    }
}

impl<'a, S: Scalar> vstd::std_specs::ops::SubSpecImpl<Vector3<S>> for &'a Vector3<S> {
    open spec fn obeys_sub_spec() -> bool {
        true
    }

    open spec fn sub_req(self, other: Vector3<S>) -> bool {
        (*self).can_sub(other)
    }

    open spec fn sub_spec(self, other: Vector3<S>) -> Vector3<S> {
        (*self).minus(other)
    }
}

impl<'a, 'b, S: Scalar> core::ops::Sub<&'b Vector3<S>> for &'a Vector3<S> {
    type Output = Vector3<S>;

    fn sub(self, other: &'b Vector3<S>) -> (r: Vector3<S>) {
        Vector3 { x: self.x.sub(other.x), y: self.y.sub(other.y), z: self.z.sub(other.z) }
    }
}

impl<'a, 'b, S: Scalar> vstd::std_specs::ops::SubSpecImpl<&'b Vector3<S>> for &'a Vector3<S> {
    open spec fn obeys_sub_spec() -> bool {
        true
    }

    open spec fn sub_req(self, other: &'b Vector3<S>) -> bool {
        (*self).can_sub(*other)
    }

    open spec fn sub_spec(self, other: &'b Vector3<S>) -> Vector3<S> {
        (*self).minus(*other)
    }
}

impl<S: Scalar> core::ops::Mul<S> for Vector3<S> {
    type Output = Vector3<S>;

    fn mul(self, other: S) -> (r: Vector3<S>) {
        Vector3 { x: self.x.mul(other), y: self.y.mul(other), z: self.z.mul(other) }
    }
}

impl<S: Scalar> vstd::std_specs::ops::MulSpecImpl<S> for Vector3<S> {
    open spec fn obeys_mul_spec() -> bool {
        true
    }

    open spec fn mul_req(self, other: S) -> bool {
        self.can_scale(other)
    }

    open spec fn mul_spec(self, other: S) -> Vector3<S> {
        self.scaled(other)
    }
}

impl<'a, S: Scalar> core::ops::Mul<S> for &'a Vector3<S> {
    type Output = Vector3<S>;

    fn mul(self, other: S) -> (r: Vector3<S>) {
        Vector3 { x: self.x.mul(other), y: self.y.mul(other), z: self.z.mul(other) }
    }
}

impl<'a, S: Scalar> vstd::std_specs::ops::MulSpecImpl<S> for &'a Vector3<S> {
    open spec fn obeys_mul_spec() -> bool {
        true
    }

    open spec fn mul_req(self, other: S) -> bool {
        (*self).can_scale(other)
    }

    open spec fn mul_spec(self, other: S) -> Vector3<S> {
        (*self).scaled(other)
    }
}

impl<S: Scalar> core::ops::Div<S> for Vector3<S> {
    type Output = Vector3<S>;

    fn div(self, other: S) -> (r: Vector3<S>) {
        Vector3 { x: self.x.div(other), y: self.y.div(other), z: self.z.div(other) }
    }
}

impl<S: Scalar> vstd::std_specs::ops::DivSpecImpl<S> for Vector3<S> {
    open spec fn obeys_div_spec() -> bool {
        true
    }

    open spec fn div_req(self, other: S) -> bool {
        self.can_div(other)
    }

    open spec fn div_spec(self, other: S) -> Vector3<S> {
        self.over(other)
    }
}

impl<'a, S: Scalar> core::ops::Div<S> for &'a Vector3<S> {
    type Output = Vector3<S>;

    fn div(self, other: S) -> (r: Vector3<S>) {
        Vector3 { x: self.x.div(other), y: self.y.div(other), z: self.z.div(other) }
    }
}

impl<'a, S: Scalar> vstd::std_specs::ops::DivSpecImpl<S> for &'a Vector3<S> {
    open spec fn obeys_div_spec() -> bool {
        true
    }

    open spec fn div_req(self, other: S) -> bool {
        (*self).can_div(other)
    }

    open spec fn div_spec(self, other: S) -> Vector3<S> {
        (*self).over(other)
    }
}

impl<S: Scalar> core::ops::Rem<S> for Vector3<S> {
    type Output = Vector3<S>;

    fn rem(self, other: S) -> (r: Vector3<S>) {
        Vector3 { x: self.x.rem(other), y: self.y.rem(other), z: self.z.rem(other) }
    }
}

impl<S: Scalar> vstd::std_specs::ops::RemSpecImpl<S> for Vector3<S> {
    open spec fn obeys_rem_spec() -> bool {
        true
    }

    open spec fn rem_req(self, other: S) -> bool {
        self.can_rem(other)
    }

    open spec fn rem_spec(self, other: S) -> Vector3<S> {
        self.modulo(other)
    }
}

impl<'a, S: Scalar> core::ops::Rem<S> for &'a Vector3<S> {
    type Output = Vector3<S>;

    fn rem(self, other: S) -> (r: Vector3<S>) {
        Vector3 { x: self.x.rem(other), y: self.y.rem(other), z: self.z.rem(other) }
    }
}

impl<'a, S: Scalar> vstd::std_specs::ops::RemSpecImpl<S> for &'a Vector3<S> {
    open spec fn obeys_rem_spec() -> bool {
        true
    }

    open spec fn rem_req(self, other: S) -> bool {
        (*self).can_rem(other)
    }

    open spec fn rem_spec(self, other: S) -> Vector3<S> {
        (*self).modulo(other)
    }
}

impl<S: ScalarSigned> core::ops::Neg for Vector3<S> {
    type Output = Vector3<S>;

    fn neg(self) -> (r: Vector3<S>) {
        Vector3 { x: self.x.neg(), y: self.y.neg(), z: self.z.neg() }
    }
}

impl<S: ScalarSigned> vstd::std_specs::ops::NegSpecImpl for Vector3<S> {
    open spec fn obeys_neg_spec() -> bool {
        true
    }

    open spec fn neg_req(self) -> bool {
        self.can_neg()
    }

    open spec fn neg_spec(self) -> Vector3<S> {
        self.negated()
    }
}

impl<'a, S: ScalarSigned> core::ops::Neg for &'a Vector3<S> {
    type Output = Vector3<S>;

    fn neg(self) -> (r: Vector3<S>) {
        Vector3 { x: self.x.neg(), y: self.y.neg(), z: self.z.neg() }
    }
}

impl<'a, S: ScalarSigned> vstd::std_specs::ops::NegSpecImpl for &'a Vector3<S> {
    open spec fn obeys_neg_spec() -> bool {
        true
    }

    open spec fn neg_req(self) -> bool {
        (*self).can_neg()
    }

    open spec fn neg_spec(self) -> Vector3<S> {
        (*self).negated()
    }
}

impl<S: Scalar> core::ops::Index<usize> for Vector3<S> {
    type Output = S;

    fn index(&self, index: usize) -> (r: &S)
        ensures
            *r == self.at(index as int),
    {
        if index == 0 {
            &self.x
        } else if index == 1 {
            &self.y
        } else if index == 2 {
            &self.z
        } else {
            vstd::pervasive::unreached()
        }
    }
}

impl<S: Scalar> vstd::std_specs::core::IndexSpecImpl<usize> for Vector3<S> {
    open spec fn index_req(&self, index: &usize) -> bool {
        *index < 3
    }
}

impl<S: Scalar> core::convert::From<(S, S, S)> for Vector3<S> {
    fn from(v: (S, S, S)) -> (r: Vector3<S>) {
        Vector3 { x: v.0, y: v.1, z: v.2 }
    }
}

impl<S: Scalar> vstd::std_specs::convert::FromSpecImpl<(S, S, S)> for Vector3<S> {
    open spec fn obeys_from_spec() -> bool {
        true
    }

    open spec fn from_spec(v: (S, S, S)) -> Vector3<S> {
        Vector3 { x: v.0, y: v.1, z: v.2 }
    }
}

impl<S: Scalar> core::convert::From<[S; 3]> for Vector3<S> {
    fn from(v: [S; 3]) -> (r: Vector3<S>) {
        Vector3 { x: v[0], y: v[1], z: v[2] }
    }
}

impl<S: Scalar> vstd::std_specs::convert::FromSpecImpl<[S; 3]> for Vector3<S> {
    open spec fn obeys_from_spec() -> bool {
        true
    }

    open spec fn from_spec(v: [S; 3]) -> Vector3<S> {
        Vector3 { x: v@[0], y: v@[1], z: v@[2] }
    }
}

impl<'a, S: Scalar> core::convert::From<&'a [S; 3]> for Vector3<S> {
    fn from(v: &'a [S; 3]) -> (r: Vector3<S>) {
        Vector3 { x: v[0], y: v[1], z: v[2] }
    }
}

impl<'a, S: Scalar> vstd::std_specs::convert::FromSpecImpl<&'a [S; 3]> for Vector3<S> {
    open spec fn obeys_from_spec() -> bool {
        true
    }

    open spec fn from_spec(v: &'a [S; 3]) -> Vector3<S> {
        Vector3 { x: v@[0], y: v@[1], z: v@[2] }
    }
}

impl<S: Scalar> core::convert::From<(Vector2<S>, S)> for Vector3<S> {
    fn from(v: (Vector2<S>, S)) -> (r: Vector3<S>) {
        Vector3 { x: v.0.x, y: v.0.y, z: v.1 }
    }
}

impl<S: Scalar> vstd::std_specs::convert::FromSpecImpl<(Vector2<S>, S)> for Vector3<S> {
    open spec fn obeys_from_spec() -> bool {
        true
    }

    open spec fn from_spec(v: (Vector2<S>, S)) -> Vector3<S> {
        Vector3 { x: v.0.x, y: v.0.y, z: v.1 }
    }
}

impl<S: Scalar> core::convert::From<Vector4<S>> for Vector3<S> {
    fn from(v: Vector4<S>) -> (r: Vector3<S>) {
        Vector3 { x: v.x, y: v.y, z: v.z }
    }
}

impl<S: Scalar> vstd::std_specs::convert::FromSpecImpl<Vector4<S>> for Vector3<S> {
    open spec fn obeys_from_spec() -> bool {
        true
    }

    open spec fn from_spec(v: Vector4<S>) -> Vector3<S> {
        Vector3 { x: v.x, y: v.y, z: v.z }
    }
}

/// A vector with four components.
#[derive(Clone, Copy, Debug, PartialEq, Eq, Hash)]
pub struct Vector4<S> {
    pub x: S,
    pub y: S,
    pub z: S,
    pub w: S,
}

impl<S: Scalar> Vector4<S> {
    /// The component at index `i`, counted from zero.
    pub open spec fn at(self, i: int) -> S {
        if i == 0 {
            self.x
        } else if i == 1 {
            self.y
        } else if i == 2 {
            self.z
        } else {
            self.w
        }
    }

    /// The vector with `value` at index `i` and the other components of `self`.
    pub open spec fn with(self, i: int, value: S) -> Vector4<S> {
        Vector4 {
            x: if i == 0 { value } else { self.x },
            y: if i == 1 { value } else { self.y },
            z: if i == 2 { value } else { self.z },
            w: if i == 3 { value } else { self.w },
        }
    }

    /// The vector whose components are all zero.
    pub open spec fn zero_spec() -> Vector4<S> {
        Vector4 { x: S::zero_spec(), y: S::zero_spec(), z: S::zero_spec(), w: S::zero_spec() }
    }

    /// The vector whose components are all `value`.
    pub open spec fn fill_spec(value: S) -> Vector4<S> {
        Vector4 { x: value, y: value, z: value, w: value }
    }

    /// The unit vector along the x-axis.
    pub open spec fn unit_x_spec() -> Vector4<S> {
        Vector4 { x: S::one_spec(), y: S::zero_spec(), z: S::zero_spec(), w: S::zero_spec() }
    }

    /// The unit vector along the y-axis.
    pub open spec fn unit_y_spec() -> Vector4<S> {
        Vector4 { x: S::zero_spec(), y: S::one_spec(), z: S::zero_spec(), w: S::zero_spec() }
    }

    /// The unit vector along the z-axis.
    pub open spec fn unit_z_spec() -> Vector4<S> {
        Vector4 { x: S::zero_spec(), y: S::zero_spec(), z: S::one_spec(), w: S::zero_spec() }
    }

    /// The unit vector along the w-axis.
    pub open spec fn unit_w_spec() -> Vector4<S> {
        Vector4 { x: S::zero_spec(), y: S::zero_spec(), z: S::zero_spec(), w: S::one_spec() }
    }

    /// True when every component of `self` is the same as zero.
    pub open spec fn is_zero_spec(self) -> bool {
        &&& self.x.same(S::zero_spec())
        &&& self.y.same(S::zero_spec())
        &&& self.z.same(S::zero_spec())
        &&& self.w.same(S::zero_spec())
    }

    /// True when each component of `self` can be added to that of `other`.
    pub open spec fn can_add(self, other: Vector4<S>) -> bool {
        &&& self.x.can_add(other.x)
        &&& self.y.can_add(other.y)
        &&& self.z.can_add(other.z)
        &&& self.w.can_add(other.w)
    }

    /// The component-wise sum.
    pub open spec fn plus(self, other: Vector4<S>) -> Vector4<S> {
        Vector4 {
            x: self.x.plus(other.x),
            y: self.y.plus(other.y),
            z: self.z.plus(other.z),
            w: self.w.plus(other.w),
        }
    }

    /// True when each component of `other` can be subtracted from that of `self`.
    pub open spec fn can_sub(self, other: Vector4<S>) -> bool {
        &&& self.x.can_sub(other.x)
        &&& self.y.can_sub(other.y)
        &&& self.z.can_sub(other.z)
        &&& self.w.can_sub(other.w)
    }

    /// The component-wise difference.
    pub open spec fn minus(self, other: Vector4<S>) -> Vector4<S> {
        Vector4 {
            x: self.x.minus(other.x),
            y: self.y.minus(other.y),
            z: self.z.minus(other.z),
            w: self.w.minus(other.w),
        }
    }

    /// True when each component can be multiplied by `c` on the right.
    pub open spec fn can_scale(self, c: S) -> bool {
        &&& self.x.can_mul(c)
        &&& self.y.can_mul(c)
        &&& self.z.can_mul(c)
        &&& self.w.can_mul(c)
    }

    /// Each component multiplied by `c` on the right.
    pub open spec fn scaled(self, c: S) -> Vector4<S> {
        Vector4 {
            x: self.x.times(c),
            y: self.y.times(c),
            z: self.z.times(c),
            w: self.w.times(c),
        }
    }

    /// True when each component can be multiplied by `c` on the left.
    pub open spec fn can_scale_left(self, c: S) -> bool {
        &&& c.can_mul(self.x)
        &&& c.can_mul(self.y)
        &&& c.can_mul(self.z)
        &&& c.can_mul(self.w)
    }

    /// Each component multiplied by `c` on the left.
    pub open spec fn scaled_left(self, c: S) -> Vector4<S> {
        Vector4 {
            x: c.times(self.x),
            y: c.times(self.y),
            z: c.times(self.z),
            w: c.times(self.w),
        }
    }

    /// True when each component can be divided by `c`.
    pub open spec fn can_div(self, c: S) -> bool {
        &&& self.x.can_div(c)
        &&& self.y.can_div(c)
        &&& self.z.can_div(c)
        &&& self.w.can_div(c)
    }

    /// Each component divided by `c`.
    pub open spec fn over(self, c: S) -> Vector4<S> {
        Vector4 { x: self.x.over(c), y: self.y.over(c), z: self.z.over(c), w: self.w.over(c) }
    }

    /// True when the remainder of each component by `c` is defined.
    pub open spec fn can_rem(self, c: S) -> bool {
        &&& self.x.can_rem(c)
        &&& self.y.can_rem(c)
        &&& self.z.can_rem(c)
        &&& self.w.can_rem(c)
    }

    /// The remainder of each component by `c`.
    pub open spec fn modulo(self, c: S) -> Vector4<S> {
        Vector4 {
            x: self.x.modulo(c),
            y: self.y.modulo(c),
            z: self.z.modulo(c),
            w: self.w.modulo(c),
        }
    }

    /// True when the interpolation towards `other` by `amount` is defined.
    pub open spec fn can_lerp(self, other: Vector4<S>, amount: S) -> bool {
        &&& other.x.can_sub(self.x)
        &&& other.x.minus(self.x).can_mul(amount)
        &&& self.x.can_add(other.x.minus(self.x).times(amount))
        &&& other.y.can_sub(self.y)
        &&& other.y.minus(self.y).can_mul(amount)
        &&& self.y.can_add(other.y.minus(self.y).times(amount))
        &&& other.z.can_sub(self.z)
        &&& other.z.minus(self.z).can_mul(amount)
        &&& self.z.can_add(other.z.minus(self.z).times(amount))
        &&& other.w.can_sub(self.w)
        &&& other.w.minus(self.w).can_mul(amount)
        &&& self.w.can_add(other.w.minus(self.w).times(amount))
    }

    /// The interpolation `self + (other - self) * amount`, component by component.
    pub open spec fn lerp_spec(self, other: Vector4<S>, amount: S) -> Vector4<S> {
        Vector4 {
            x: self.x.plus(other.x.minus(self.x).times(amount)),
            y: self.y.plus(other.y.minus(self.y).times(amount)),
            z: self.z.plus(other.z.minus(self.z).times(amount)),
            w: self.w.plus(other.w.minus(self.w).times(amount)),
        }
    }

    /// True when every product and partial sum of the dot product is defined.
    pub open spec fn can_dot_with(self, other: Vector4<S>) -> bool {
        &&& self.x.can_mul(other.x)
        &&& self.y.can_mul(other.y)
        &&& self.x.times(other.x).can_add(self.y.times(other.y))
        &&& self.z.can_mul(other.z)
        &&& self.x.times(other.x).plus(self.y.times(other.y)).can_add(self.z.times(other.z))
        &&& self.w.can_mul(other.w)
        &&& self.x.times(other.x).plus(self.y.times(other.y)).plus(self.z.times(other.z))
            .can_add(self.w.times(other.w))
    }

    /// The dot product: the products of the components, added from the first on.
    pub open spec fn dot_with(self, other: Vector4<S>) -> S {
        self.x.times(other.x).plus(self.y.times(other.y)).plus(self.z.times(other.z))
            .plus(self.w.times(other.w))
    }

    /// True when the squared distance to `other` is defined.
    pub open spec fn can_distance_squared(self, other: Vector4<S>) -> bool {
        &&& other.x.can_sub(self.x)
        &&& other.x.minus(self.x).can_mul(other.x.minus(self.x))
        &&& other.y.can_sub(self.y)
        &&& other.y.minus(self.y).can_mul(other.y.minus(self.y))
        &&& other.x.minus(self.x).times(other.x.minus(self.x)).can_add(other.y.minus(self.y)
            .times(other.y.minus(self.y)))
        &&& other.z.can_sub(self.z)
        &&& other.z.minus(self.z).can_mul(other.z.minus(self.z))
        &&& other.x.minus(self.x).times(other.x.minus(self.x)).plus(other.y.minus(self.y)
            .times(other.y.minus(self.y))).can_add(other.z.minus(self.z).times(other.z
            .minus(self.z)))
        &&& other.w.can_sub(self.w)
        &&& other.w.minus(self.w).can_mul(other.w.minus(self.w))
        &&& other.x.minus(self.x).times(other.x.minus(self.x)).plus(other.y.minus(self.y)
            .times(other.y.minus(self.y))).plus(other.z.minus(self.z).times(other.z
            .minus(self.z))).can_add(other.w.minus(self.w).times(other.w.minus(self.w)))
    }

    /// The squared distance: the squares of the component differences
    /// `other - self`, added from the first on.
    pub open spec fn distance_squared_spec(self, other: Vector4<S>) -> S {
        other.x.minus(self.x).times(other.x.minus(self.x)).plus(other.y.minus(self.y)
            .times(other.y.minus(self.y))).plus(other.z.minus(self.z).times(other.z
            .minus(self.z))).plus(other.w.minus(self.w).times(other.w.minus(self.w)))
    }

    /// The vector without its last component.
    pub open spec fn contract_spec(self) -> Vector3<S> {
        Vector3 { x: self.x, y: self.y, z: self.z }
    }

    /// Makes a vector from its components.
    pub fn new(x: S, y: S, z: S, w: S) -> (r: Vector4<S>)
        ensures
            r == (Vector4 { x: x, y: y, z: z, w: w }),
    {
        Vector4 { x, y, z, w }
    }

    /// The zero vector.
    pub fn zero() -> (r: Vector4<S>)
        ensures
            r == Self::zero_spec(),
    {
        Vector4 { x: S::zero(), y: S::zero(), z: S::zero(), w: S::zero() }
    }

    /// The vector whose components all equal `value`.
    pub fn from_fill(value: S) -> (r: Vector4<S>)
        ensures
            r == Self::fill_spec(value),
    {
        Vector4 { x: value, y: value, z: value, w: value }
    }

    /// The unit vector along the x-axis.
    pub fn unit_x() -> (r: Vector4<S>)
        ensures
            r == Self::unit_x_spec(),
    {
        Vector4 { x: S::one(), y: S::zero(), z: S::zero(), w: S::zero() }
    }

    /// The unit vector along the y-axis.
    pub fn unit_y() -> (r: Vector4<S>)
        ensures
            r == Self::unit_y_spec(),
    {
        Vector4 { x: S::zero(), y: S::one(), z: S::zero(), w: S::zero() }
    }

    /// The unit vector along the z-axis.
    pub fn unit_z() -> (r: Vector4<S>)
        ensures
            r == Self::unit_z_spec(),
    {
        Vector4 { x: S::zero(), y: S::zero(), z: S::one(), w: S::zero() }
    }

    /// The unit vector along the w-axis.
    pub fn unit_w() -> (r: Vector4<S>)
        ensures
            r == Self::unit_w_spec(),
    {
        Vector4 { x: S::zero(), y: S::zero(), z: S::zero(), w: S::one() }
    }

    /// The number of components.
    pub fn len() -> (r: usize)
        ensures
            r == 4,
    {
        4
    }

    /// The shape as a pair of the number of rows and the number of columns.
    pub fn shape() -> (r: (usize, usize))
        ensures
            r == (4usize, 1usize),
    {
        (4, 1)
    }

    /// The components in order, as an array.
    pub fn to_array(&self) -> (r: [S; 4])
        ensures
            r@ == seq![self.x, self.y, self.z, self.w],
    {
        [self.x, self.y, self.z, self.w]
    }

    /// Replaces the component at `index` by `value`.
    pub fn set(&mut self, index: usize, value: S)
        requires
            index < 4,
        ensures
            *final(self) == old(self).with(index as int, value),
    {
        if index == 0 {
            self.x = value;
        } else if index == 1 {
            self.y = value;
        } else if index == 2 {
            self.z = value;
        } else {
            self.w = value;
        }
    }

    /// Tells whether every component is zero.
    pub fn is_zero(&self) -> (r: bool)
        ensures
            r == self.is_zero_spec(),
    {
        self.x.equals(S::zero()) && self.y.equals(S::zero()) && self.z.equals(S::zero())
            && self.w.equals(S::zero())
    }

    /// The squared length: the dot product of the vector with itself.
    pub fn magnitude_squared(&self) -> (r: S)
        requires
            self.can_dot_with(*self),
        ensures
            r == self.dot_with(*self),
    {
        self.x.mul(self.x).add(self.y.mul(self.y)).add(self.z.mul(self.z)).add(self.w.mul(self.w))
    }

    /// The squared distance from `self` to `other`.
    pub fn distance_squared(self, other: Vector4<S>) -> (r: S)
        requires
            self.can_distance_squared(other),
        ensures
            r == self.distance_squared_spec(other),
    {
        let dx = other.x.sub(self.x);
        let dy = other.y.sub(self.y);
        let dz = other.z.sub(self.z);
        let dw = other.w.sub(self.w);
        dx.mul(dx).add(dy.mul(dy)).add(dz.mul(dz)).add(dw.mul(dw))
    }

    /// Interpolates linearly from `self` towards `other` by `amount`.
    pub fn lerp(self, other: Vector4<S>, amount: S) -> (r: Vector4<S>)
        requires
            self.can_lerp(other, amount),
        ensures
            r == self.lerp_spec(other, amount),
    {
        Vector4 {
            x: self.x.add(other.x.sub(self.x).mul(amount)),
            y: self.y.add(other.y.sub(self.y).mul(amount)),
            z: self.z.add(other.z.sub(self.z).mul(amount)),
            w: self.w.add(other.w.sub(self.w).mul(amount)),
        }
    }

    /// Drops the last component.
    pub fn contract(&self) -> (r: Vector3<S>)
        ensures
            r == self.contract_spec(),
    {
        Vector3 { x: self.x, y: self.y, z: self.z }
    }

    /// Adds `other` to `self` in place.
    pub fn add_assign(&mut self, other: Vector4<S>)
        requires
            old(self).can_add(other),
        ensures
            *final(self) == old(self).plus(other),
    {
        self.x = self.x.add(other.x);
        self.y = self.y.add(other.y);
        self.z = self.z.add(other.z);
        self.w = self.w.add(other.w);
    }

    /// Subtracts `other` from `self` in place.
    pub fn sub_assign(&mut self, other: Vector4<S>)
        requires
            old(self).can_sub(other),
        ensures
            *final(self) == old(self).minus(other),
    {
        self.x = self.x.sub(other.x);
        self.y = self.y.sub(other.y);
        self.z = self.z.sub(other.z);
        self.w = self.w.sub(other.w);
    }

    /// Multiplies `self` by `c` in place.
    pub fn mul_assign(&mut self, c: S)
        requires
            old(self).can_scale(c),
        ensures
            *final(self) == old(self).scaled(c),
    {
        self.x = self.x.mul(c);
        self.y = self.y.mul(c);
        self.z = self.z.mul(c);
        self.w = self.w.mul(c);
    }

    /// Divides `self` by `c` in place.
    pub fn div_assign(&mut self, c: S)
        requires
            old(self).can_div(c),
        ensures
            *final(self) == old(self).over(c),
    {
        self.x = self.x.div(c);
        self.y = self.y.div(c);
        self.z = self.z.div(c);
        self.w = self.w.div(c);
    }

    /// Replaces each component by its remainder by `c`.
    pub fn rem_assign(&mut self, c: S)
        requires
            old(self).can_rem(c),
        ensures
            *final(self) == old(self).modulo(c),
    {
        self.x = self.x.rem(c);
        self.y = self.y.rem(c);
        self.z = self.z.rem(c);
        self.w = self.w.rem(c);
    }

    /// Multiplies each component by `c`, with `c` on the left of each product.
    pub fn scale_left(self, c: S) -> (r: Vector4<S>)
        requires
            self.can_scale_left(c),
        ensures
            r == self.scaled_left(c),
    {
        Vector4 { x: c.mul(self.x), y: c.mul(self.y), z: c.mul(self.z), w: c.mul(self.w) }
    }
}

impl<S: ScalarSigned> Vector4<S> {
    /// True when every component can be negated.
    pub open spec fn can_neg(self) -> bool {
        &&& self.x.can_neg()
        &&& self.y.can_neg()
        &&& self.z.can_neg()
        &&& self.w.can_neg()
    }

    /// The vector of the negated components.
    pub open spec fn negated(self) -> Vector4<S> {
        Vector4 {
            x: self.x.negated(),
            y: self.y.negated(),
            z: self.z.negated(),
            w: self.w.negated(),
        }
    }

    /// Negates `self` in place.
    pub fn neg_mut(&mut self)
        requires
            old(self).can_neg(),
        ensures
            *final(self) == old(self).negated(),
    {
        self.x = self.x.neg();
        self.y = self.y.neg();
        self.z = self.z.neg();
        self.w = self.w.neg();
    }
}

impl<S: ScalarFloat> Vector4<S> {
    /// The length: the square root of the squared length.
    pub open spec fn magnitude_spec(self) -> S {
        self.dot_with(self).root()
    }

    /// True when the vector can be divided by its length.
    pub open spec fn can_normalize(self) -> bool {
        self.can_dot_with(self) && self.can_div(self.magnitude_spec())
    }

    /// The vector divided by its length.
    pub open spec fn normalize_spec(self) -> Vector4<S> {
        self.over(self.magnitude_spec())
    }

    /// True when the vector can be rescaled to the length `magnitude`.
    pub open spec fn can_normalize_to(self, magnitude: S) -> bool {
        &&& self.can_dot_with(self)
        &&& magnitude.can_div(self.magnitude_spec())
        &&& self.can_scale(magnitude.over(self.magnitude_spec()))
    }

    /// The vector multiplied by `magnitude` over its length.
    pub open spec fn normalize_to_spec(self, magnitude: S) -> Vector4<S> {
        self.scaled(magnitude.over(self.magnitude_spec()))
    }

    /// The length of the vector.
    pub fn magnitude(&self) -> (r: S)
        requires
            self.can_dot_with(*self),
        ensures
            r == self.magnitude_spec(),
    {
        self.magnitude_squared().sqrt()
    }

    /// The vector of length one in the direction of `self`.
    pub fn normalize(&self) -> (r: Vector4<S>)
        requires
            self.can_normalize(),
        ensures
            r == self.normalize_spec(),
    {
        let m = self.magnitude();
        Vector4 { x: self.x.div(m), y: self.y.div(m), z: self.z.div(m), w: self.w.div(m) }
    }

    /// The vector of length `magnitude` in the direction of `self`.
    pub fn normalize_to(&self, magnitude: S) -> (r: Vector4<S>)
        requires
            self.can_normalize_to(magnitude),
        ensures
            r == self.normalize_to_spec(magnitude),
    {
        let c = magnitude.div(self.magnitude());
        Vector4 { x: self.x.mul(c), y: self.y.mul(c), z: self.z.mul(c), w: self.w.mul(c) }
    }

    /// The distance from `self` to `other`.
    pub fn distance(self, other: Vector4<S>) -> (r: S)
        requires
            self.can_distance_squared(other),
        ensures
            r == self.distance_squared_spec(other).root(),
    {
        self.distance_squared(other).sqrt()
    }
}

impl<S: Scalar> DotProduct<Vector4<S>> for Vector4<S> {
    type Output = S;

    open spec fn can_dot(self, rhs: Vector4<S>) -> bool {
        self.can_dot_with(rhs)
    }

    open spec fn dot_spec(self, rhs: Vector4<S>) -> S {
        self.dot_with(rhs)
    }

    fn dot(self, rhs: Vector4<S>) -> (r: S) {
        self.x.mul(rhs.x).add(self.y.mul(rhs.y)).add(self.z.mul(rhs.z)).add(self.w.mul(rhs.w))
    }
}

impl<'b, S: Scalar> DotProduct<&'b Vector4<S>> for Vector4<S> {
    type Output = S;

    open spec fn can_dot(self, rhs: &'b Vector4<S>) -> bool {
        self.can_dot_with(*rhs)
    }

    open spec fn dot_spec(self, rhs: &'b Vector4<S>) -> S {
        self.dot_with(*rhs)
    }

    fn dot(self, rhs: &'b Vector4<S>) -> (r: S) {
        self.x.mul(rhs.x).add(self.y.mul(rhs.y)).add(self.z.mul(rhs.z)).add(self.w.mul(rhs.w))
    }
}

impl<'a, S: Scalar> DotProduct<Vector4<S>> for &'a Vector4<S> {
    type Output = S;

    open spec fn can_dot(self, rhs: Vector4<S>) -> bool {
        (*self).can_dot_with(rhs)
    }

    open spec fn dot_spec(self, rhs: Vector4<S>) -> S {
        (*self).dot_with(rhs)
    }

    fn dot(self, rhs: Vector4<S>) -> (r: S) {
        self.x.mul(rhs.x).add(self.y.mul(rhs.y)).add(self.z.mul(rhs.z)).add(self.w.mul(rhs.w))
    }
}

impl<'a, 'b, S: Scalar> DotProduct<&'b Vector4<S>> for &'a Vector4<S> {
    type Output = S;

    open spec fn can_dot(self, rhs: &'b Vector4<S>) -> bool {
        (*self).can_dot_with(*rhs)
    }

    open spec fn dot_spec(self, rhs: &'b Vector4<S>) -> S {
        (*self).dot_with(*rhs)
    }

    fn dot(self, rhs: &'b Vector4<S>) -> (r: S) {
        self.x.mul(rhs.x).add(self.y.mul(rhs.y)).add(self.z.mul(rhs.z)).add(self.w.mul(rhs.w))
    }
}

impl<S: Scalar> core::ops::Add<Vector4<S>> for Vector4<S> {
    type Output = Vector4<S>;

    fn add(self, other: Vector4<S>) -> (r: Vector4<S>) {
        Vector4 {
            x: self.x.add(other.x),
            y: self.y.add(other.y),
            z: self.z.add(other.z),
            w: self.w.add(other.w),
        }
    }
}

impl<S: Scalar> vstd::std_specs::ops::AddSpecImpl<Vector4<S>> for Vector4<S> {
    open spec fn obeys_add_spec() -> bool {
        true
    }

    open spec fn add_req(self, other: Vector4<S>) -> bool {
        self.can_add(other)
    }

    open spec fn add_spec(self, other: Vector4<S>) -> Vector4<S> {
        self.plus(other)
    }
}

impl<'b, S: Scalar> core::ops::Add<&'b Vector4<S>> for Vector4<S> {
    type Output = Vector4<S>;

    fn add(self, other: &'b Vector4<S>) -> (r: Vector4<S>) {
        Vector4 {
            x: self.x.add(other.x),
            y: self.y.add(other.y),
            z: self.z.add(other.z),
            w: self.w.add(other.w),
        }
    }
}

impl<'b, S: Scalar> vstd::std_specs::ops::AddSpecImpl<&'b Vector4<S>> for Vector4<S> {
    open spec fn obeys_add_spec() -> bool {
        true
    }

    open spec fn add_req(self, other: &'b Vector4<S>) -> bool {
        self.can_add(*other)
    }

    open spec fn add_spec(self, other: &'b Vector4<S>) -> Vector4<S> {
        self.plus(*other)
    }
}

impl<'a, S: Scalar> core::ops::Add<Vector4<S>> for &'a Vector4<S> {
    type Output = Vector4<S>;

    fn add(self, other: Vector4<S>) -> (r: Vector4<S>) {
        Vector4 {
            x: self.x.add(other.x),
            y: self.y.add(other.y),
            z: self.z.add(other.z),
            w: self.w.add(other.w),
        }
    }
}

impl<'a, S: Scalar> vstd::std_specs::ops::AddSpecImpl<Vector4<S>> for &'a Vector4<S> {
    open spec fn obeys_add_spec() -> bool {
        true
    }

    open spec fn add_req(self, other: Vector4<S>) -> bool {
        (*self).can_add(other)
    }

    open spec fn add_spec(self, other: Vector4<S>) -> Vector4<S> {
        (*self).plus(other)
    }
}

impl<'a, 'b, S: Scalar> core::ops::Add<&'b Vector4<S>> for &'a Vector4<S> {
    type Output = Vector4<S>;

    fn add(self, other: &'b Vector4<S>) -> (r: Vector4<S>) {
        Vector4 {
            x: self.x.add(other.x),
            y: self.y.add(other.y),
            z: self.z.add(other.z),
            w: self.w.add(other.w),
        }
    }
}

impl<'a, 'b, S: Scalar> vstd::std_specs::ops::AddSpecImpl<&'b Vector4<S>> for &'a Vector4<S> {
    open spec fn obeys_add_spec() -> bool {
        true
    }

    open spec fn add_req(self, other: &'b Vector4<S>) -> bool {
        (*self).can_add(*other)
    }

    open spec fn add_spec(self, other: &'b Vector4<S>) -> Vector4<S> {
        (*self).plus(*other)
    }
}

impl<S: Scalar> core::ops::Sub<Vector4<S>> for Vector4<S> {
    type Output = Vector4<S>;

    fn sub(self, other: Vector4<S>) -> (r: Vector4<S>) {
        Vector4 {
            x: self.x.sub(other.x),
            y: self.y.sub(other.y),
            z: self.z.sub(other.z),
            w: self.w.sub(other.w),
        }
    }
}

impl<S: Scalar> vstd::std_specs::ops::SubSpecImpl<Vector4<S>> for Vector4<S> {
    open spec fn obeys_sub_spec() -> bool {
        true
    }

    open spec fn sub_req(self, other: Vector4<S>) -> bool {
        self.can_sub(other)
    }

    open spec fn sub_spec(self, other: Vector4<S>) -> Vector4<S> {
        self.minus(other)
    }
}

impl<'b, S: Scalar> core::ops::Sub<&'b Vector4<S>> for Vector4<S> {
    type Output = Vector4<S>;

    fn sub(self, other: &'b Vector4<S>) -> (r: Vector4<S>) {
        Vector4 {
            x: self.x.sub(other.x),
            y: self.y.sub(other.y),
            z: self.z.sub(other.z),
            w: self.w.sub(other.w),
        }
    }
}

impl<'b, S: Scalar> vstd::std_specs::ops::SubSpecImpl<&'b Vector4<S>> for Vector4<S> {
    open spec fn obeys_sub_spec() -> bool {
        true
    }

    open spec fn sub_req(self, other: &'b Vector4<S>) -> bool {
        self.can_sub(*other)
    }

    open spec fn sub_spec(self, other: &'b Vector4<S>) -> Vector4<S> {
        self.minus(*other)
    }
}

impl<'a, S: Scalar> core::ops::Sub<Vector4<S>> for &'a Vector4<S> {
    type Output = Vector4<S>;

    fn sub(self, other: Vector4<S>) -> (r: Vector4<S>) {
        Vector4 {
            x: self.x.sub(other.x),
            y: self.y.sub(other.y),
            z: self.z.sub(other.z),
            w: self.w.sub(other.w),
        }
    }
}

impl<'a, S: Scalar> vstd::std_specs::ops::SubSpecImpl<Vector4<S>> for &'a Vector4<S> {
    open spec fn obeys_sub_spec() -> bool {
        true
    }

    open spec fn sub_req(self, other: Vector4<S>) -> bool {
        (*self).can_sub(other)
    }

    open spec fn sub_spec(self, other: Vector4<S>) -> Vector4<S> {
        (*self).minus(other)
    }
}

impl<'a, 'b, S: Scalar> core::ops::Sub<&'b Vector4<S>> for &'a Vector4<S> {
    type Output = Vector4<S>;

    fn sub(self, other: &'b Vector4<S>) -> (r: Vector4<S>) {
        Vector4 {
            x: self.x.sub(other.x),
            y: self.y.sub(other.y),
            z: self.z.sub(other.z),
            w: self.w.sub(other.w),
        }
    }
}

impl<'a, 'b, S: Scalar> vstd::std_specs::ops::SubSpecImpl<&'b Vector4<S>> for &'a Vector4<S> {
    open spec fn obeys_sub_spec() -> bool {
        true
    }

    open spec fn sub_req(self, other: &'b Vector4<S>) -> bool {
        (*self).can_sub(*other)
    }

    open spec fn sub_spec(self, other: &'b Vector4<S>) -> Vector4<S> {
        (*self).minus(*other)
    }
}

impl<S: Scalar> core::ops::Mul<S> for Vector4<S> {
    type Output = Vector4<S>;

    fn mul(self, other: S) -> (r: Vector4<S>) {
        Vector4 {
            x: self.x.mul(other),
            y: self.y.mul(other),
            z: self.z.mul(other),
            w: self.w.mul(other),
        }
    }
}

impl<S: Scalar> vstd::std_specs::ops::MulSpecImpl<S> for Vector4<S> {
    open spec fn obeys_mul_spec() -> bool {
        true
    }

    open spec fn mul_req(self, other: S) -> bool {
        self.can_scale(other)
    }

    open spec fn mul_spec(self, other: S) -> Vector4<S> {
        self.scaled(other)
    }
}

impl<'a, S: Scalar> core::ops::Mul<S> for &'a Vector4<S> {
    type Output = Vector4<S>;

    fn mul(self, other: S) -> (r: Vector4<S>) {
        Vector4 {
            x: self.x.mul(other),
            y: self.y.mul(other),
            z: self.z.mul(other),
            w: self.w.mul(other),
        }
    }
}

impl<'a, S: Scalar> vstd::std_specs::ops::MulSpecImpl<S> for &'a Vector4<S> {
    open spec fn obeys_mul_spec() -> bool {
        true
    }

    open spec fn mul_req(self, other: S) -> bool {
        (*self).can_scale(other)
    }

    open spec fn mul_spec(self, other: S) -> Vector4<S> {
        (*self).scaled(other)
    }
}

impl<S: Scalar> core::ops::Div<S> for Vector4<S> {
    type Output = Vector4<S>;

    fn div(self, other: S) -> (r: Vector4<S>) {
        Vector4 {
            x: self.x.div(other),
            y: self.y.div(other),
            z: self.z.div(other),
            w: self.w.div(other),
        }
    }
}

impl<S: Scalar> vstd::std_specs::ops::DivSpecImpl<S> for Vector4<S> {
    open spec fn obeys_div_spec() -> bool {
        true
    }

    open spec fn div_req(self, other: S) -> bool {
        self.can_div(other)
    }

    open spec fn div_spec(self, other: S) -> Vector4<S> {
        self.over(other)
    }
}

impl<'a, S: Scalar> core::ops::Div<S> for &'a Vector4<S> {
    type Output = Vector4<S>;

    fn div(self, other: S) -> (r: Vector4<S>) {
        Vector4 {
            x: self.x.div(other),
            y: self.y.div(other),
            z: self.z.div(other),
            w: self.w.div(other),
        }
    }
}

impl<'a, S: Scalar> vstd::std_specs::ops::DivSpecImpl<S> for &'a Vector4<S> {
    open spec fn obeys_div_spec() -> bool {
        true
    }

    open spec fn div_req(self, other: S) -> bool {
        (*self).can_div(other)
    }

    open spec fn div_spec(self, other: S) -> Vector4<S> {
        (*self).over(other)
    }
}

impl<S: Scalar> core::ops::Rem<S> for Vector4<S> {
    type Output = Vector4<S>;

    fn rem(self, other: S) -> (r: Vector4<S>) {
        Vector4 {
            x: self.x.rem(other),
            y: self.y.rem(other),
            z: self.z.rem(other),
            w: self.w.rem(other),
        }
    }
}

impl<S: Scalar> vstd::std_specs::ops::RemSpecImpl<S> for Vector4<S> {
    open spec fn obeys_rem_spec() -> bool {
        true
    }

    open spec fn rem_req(self, other: S) -> bool {
        self.can_rem(other)
    }

    open spec fn rem_spec(self, other: S) -> Vector4<S> {
        self.modulo(other)
    }
}

impl<'a, S: Scalar> core::ops::Rem<S> for &'a Vector4<S> {
    type Output = Vector4<S>;

    fn rem(self, other: S) -> (r: Vector4<S>) {
        Vector4 {
            x: self.x.rem(other),
            y: self.y.rem(other),
            z: self.z.rem(other),
            w: self.w.rem(other),
        }
    }
}

impl<'a, S: Scalar> vstd::std_specs::ops::RemSpecImpl<S> for &'a Vector4<S> {
    open spec fn obeys_rem_spec() -> bool {
        true
    }

    open spec fn rem_req(self, other: S) -> bool {
        (*self).can_rem(other)
    }

    open spec fn rem_spec(self, other: S) -> Vector4<S> {
        (*self).modulo(other)
    }
}

impl<S: ScalarSigned> core::ops::Neg for Vector4<S> {
    type Output = Vector4<S>;

    fn neg(self) -> (r: Vector4<S>) {
        Vector4 { x: self.x.neg(), y: self.y.neg(), z: self.z.neg(), w: self.w.neg() }
    }
}

impl<S: ScalarSigned> vstd::std_specs::ops::NegSpecImpl for Vector4<S> {
    open spec fn obeys_neg_spec() -> bool {
        true
    }

    open spec fn neg_req(self) -> bool {
        self.can_neg()
    }

    open spec fn neg_spec(self) -> Vector4<S> {
        self.negated()
    }
}

impl<'a, S: ScalarSigned> core::ops::Neg for &'a Vector4<S> {
    type Output = Vector4<S>;

    fn neg(self) -> (r: Vector4<S>) {
        Vector4 { x: self.x.neg(), y: self.y.neg(), z: self.z.neg(), w: self.w.neg() }
    }
}

impl<'a, S: ScalarSigned> vstd::std_specs::ops::NegSpecImpl for &'a Vector4<S> {
    open spec fn obeys_neg_spec() -> bool {
        true
    }

    open spec fn neg_req(self) -> bool {
        (*self).can_neg()
    }

    open spec fn neg_spec(self) -> Vector4<S> {
        (*self).negated()
    }
}

impl<S: Scalar> core::ops::Index<usize> for Vector4<S> {
    type Output = S;

    fn index(&self, index: usize) -> (r: &S)
        ensures
            *r == self.at(index as int),
    {
        if index == 0 {
            &self.x
        } else if index == 1 {
            &self.y
        } else if index == 2 {
            &self.z
        } else if index == 3 {
            &self.w
        } else {
            vstd::pervasive::unreached()
        }
    }
}

impl<S: Scalar> vstd::std_specs::core::IndexSpecImpl<usize> for Vector4<S> {
    open spec fn index_req(&self, index: &usize) -> bool {
        *index < 4
    }
}

impl<S: Scalar> core::convert::From<(S, S, S, S)> for Vector4<S> {
    fn from(v: (S, S, S, S)) -> (r: Vector4<S>) {
        Vector4 { x: v.0, y: v.1, z: v.2, w: v.3 }
    }
}

impl<S: Scalar> vstd::std_specs::convert::FromSpecImpl<(S, S, S, S)> for Vector4<S> {
    open spec fn obeys_from_spec() -> bool {
        true
    }

    open spec fn from_spec(v: (S, S, S, S)) -> Vector4<S> {
        Vector4 { x: v.0, y: v.1, z: v.2, w: v.3 }
    }
}

impl<S: Scalar> core::convert::From<[S; 4]> for Vector4<S> {
    fn from(v: [S; 4]) -> (r: Vector4<S>) {
        Vector4 { x: v[0], y: v[1], z: v[2], w: v[3] }
    }
}

impl<S: Scalar> vstd::std_specs::convert::FromSpecImpl<[S; 4]> for Vector4<S> {
    open spec fn obeys_from_spec() -> bool {
        true
    }

    open spec fn from_spec(v: [S; 4]) -> Vector4<S> {
        Vector4 { x: v@[0], y: v@[1], z: v@[2], w: v@[3] }
    }
}

impl<'a, S: Scalar> core::convert::From<&'a [S; 4]> for Vector4<S> {
    fn from(v: &'a [S; 4]) -> (r: Vector4<S>) {
        Vector4 { x: v[0], y: v[1], z: v[2], w: v[3] }
    }
}

impl<'a, S: Scalar> vstd::std_specs::convert::FromSpecImpl<&'a [S; 4]> for Vector4<S> {
    open spec fn obeys_from_spec() -> bool {
        true
    }

    open spec fn from_spec(v: &'a [S; 4]) -> Vector4<S> {
        Vector4 { x: v@[0], y: v@[1], z: v@[2], w: v@[3] }
    }
}

impl<S: Scalar> core::convert::From<(Vector2<S>, S, S)> for Vector4<S> {
    fn from(v: (Vector2<S>, S, S)) -> (r: Vector4<S>) {
        Vector4 { x: v.0.x, y: v.0.y, z: v.1, w: v.2 }
    }
}

impl<S: Scalar> vstd::std_specs::convert::FromSpecImpl<(Vector2<S>, S, S)> for Vector4<S> {
    open spec fn obeys_from_spec() -> bool {
        true
    }

    open spec fn from_spec(v: (Vector2<S>, S, S)) -> Vector4<S> {
        Vector4 { x: v.0.x, y: v.0.y, z: v.1, w: v.2 }
    }
}

impl<S: Scalar> core::convert::From<(Vector3<S>, S)> for Vector4<S> {
    fn from(v: (Vector3<S>, S)) -> (r: Vector4<S>) {
        Vector4 { x: v.0.x, y: v.0.y, z: v.0.z, w: v.1 }
    }
}

impl<S: Scalar> vstd::std_specs::convert::FromSpecImpl<(Vector3<S>, S)> for Vector4<S> {
    open spec fn obeys_from_spec() -> bool {
        true
    }

    open spec fn from_spec(v: (Vector3<S>, S)) -> Vector4<S> {
        Vector4 { x: v.0.x, y: v.0.y, z: v.0.z, w: v.1 }
    }
}

} // verus!
