//! Translations of the plane and of space.
//!
//! A translation displaces points by a fixed vector and leaves vectors as
//! they are, since a vector is a difference of points.

use vstd::prelude::*;
use crate::matrix3x3::Matrix3x3;
use crate::matrix4x4::Matrix4x4;
use crate::point::{Point2, Point3};
use crate::scalar::ScalarSigned;
use crate::transform::{Transform2, Transform3};
use crate::vector::{Vector2, Vector3};

verus! {

/// A translation of the plane: the displacement by a fixed vector.
#[derive(Clone, Copy, Debug, PartialEq)]
pub struct Translation2<S> {
    pub vector: Vector2<S>,
}

impl<S: ScalarSigned> Translation2<S> {
    /// The displacement of the translation.
    pub open spec fn view(self) -> Vector2<S> {
        self.vector
    }

    /// The translation by the displacement with the given components.
    pub fn new(x: S, y: S) -> (r: Self)
        ensures
            r@ == (Vector2 { x, y }),
    {
        Translation2 { vector: Vector2::new(x, y) }
    }

    /// The translation by the displacement `vector`.
    pub fn from_vector(vector: &Vector2<S>) -> (r: Self)
        ensures
            r@ == *vector,
    {
        Translation2 { vector: *vector }
    }

    /// The translation that carries `vector1` to `vector2`.
    pub fn between_vectors(vector1: &Vector2<S>, vector2: &Vector2<S>) -> (r: Self)
        requires
            vector2.can_sub(*vector1),
        ensures
            r@ == vector2.minus(*vector1),
    {
        let distance = *vector2 - *vector1;
        Self::from_vector(&distance)
    }

    /// The translation that carries `point1` to `point2`.
    pub fn between_points(point1: &Point2<S>, point2: &Point2<S>) -> (r: Self)
        requires
            point2.can_sub(*point1),
        ensures
            r@ == point2.minus(*point1),
    {
        let distance = *point2 - *point1;
        Self::from_vector(&distance)
    }

    /// The translation by the opposite displacement.
    pub fn inverse(&self) -> (r: Self)
        requires
            self@.can_neg(),
        ensures
            r@ == self@.negated(),
    {
        let opposite = core::ops::Neg::neg(self.vector);
        Self::from_vector(&opposite)
    }

    /// Replaces the translation by its inverse.
    pub fn inverse_mut(&mut self)
        requires
            old(self)@.can_neg(),
        ensures
            final(self)@ == old(self)@.negated(),
    {
        self.vector.neg_mut();
    }

    /// Displaces a point.
    pub fn translate_point(&self, point: &Point2<S>) -> (r: Point2<S>)
        requires
            point.can_add_vector(self@),
        ensures
            r == point.plus_vector(self@),
    {
        *point + self.vector
    }

    /// Leaves a vector as it is: translations act on points only.
    pub fn translate_vector(&self, vector: &Vector2<S>) -> (r: Vector2<S>)
        ensures
            r == *vector,
    {
        *vector
    }

    /// Displaces a point by the opposite displacement.
    pub fn inverse_translate_point(&self, point: &Point2<S>) -> (r: Point2<S>)
        requires
            point.can_sub_vector(self@),
        ensures
            r == point.minus_vector(self@),
    {
        *point - self.vector
    }

    /// Leaves a vector as it is.
    pub fn inverse_translate_vector(&self, vector: &Vector2<S>) -> (r: Vector2<S>)
        ensures
            r == *vector,
    {
        *vector
    }

    /// The translation that displaces nothing.
    pub fn identity() -> (r: Self)
        ensures
            r@ == Vector2::<S>::zero_spec(),
    {
        Translation2 { vector: Vector2::zero() }
    }

    /// The translation as a general transformation, which holds its matrix.
    pub fn to_transform(&self) -> (r: Transform2<S>)
        ensures
            r@ == Matrix3x3::<S>::affine_translation_spec(self@),
    {
        Transform2::from_specialized(Matrix3x3::from_affine_translation(&self.vector))
    }

    /// The displacement of the translation.
    pub fn to_vector(&self) -> (r: Vector2<S>)
        ensures
            r == self@,
    {
        self.vector
    }

    /// The translation that displaces by `self` and then by `other`: the
    /// sum of the two displacements.
    pub fn compose(self, other: Translation2<S>) -> (r: Translation2<S>)
        requires
            self@.can_add(other@),
        ensures
            r@ == self@.plus(other@),
    {
        Translation2 { vector: self.vector + other.vector }
    }
}

impl<S: ScalarSigned> core::convert::From<Translation2<S>> for Matrix3x3<S> {
    fn from(transform: Translation2<S>) -> (r: Matrix3x3<S>) {
        Matrix3x3::from_affine_translation(&transform.vector)
    }
}

impl<S: ScalarSigned> vstd::std_specs::convert::FromSpecImpl<Translation2<S>> for Matrix3x3<S> {
    open spec fn obeys_from_spec() -> bool {
        true
    }

    open spec fn from_spec(transform: Translation2<S>) -> Matrix3x3<S> {
        Matrix3x3::<S>::affine_translation_spec(transform@)
    }
}

impl<S: ScalarSigned> core::ops::Mul<Point2<S>> for Translation2<S> {
    type Output = Point2<S>;

    fn mul(self, other: Point2<S>) -> (r: Point2<S>) {
        self.translate_point(&other)
    }
}

impl<S: ScalarSigned> vstd::std_specs::ops::MulSpecImpl<Point2<S>> for Translation2<S> {
    open spec fn obeys_mul_spec() -> bool {
        true
    }

    open spec fn mul_req(self, other: Point2<S>) -> bool {
        other.can_add_vector(self@)
    }

    open spec fn mul_spec(self, other: Point2<S>) -> Point2<S> {
        other.plus_vector(self@)
    }
}

impl<S: ScalarSigned> core::ops::Mul<Translation2<S>> for Translation2<S> {
    type Output = Translation2<S>;

    fn mul(self, other: Translation2<S>) -> (r: Translation2<S>) {
        self.compose(other)
    }
}

impl<S: ScalarSigned> vstd::std_specs::ops::MulSpecImpl<Translation2<S>> for Translation2<S> {
    open spec fn obeys_mul_spec() -> bool {
        true
    }

    open spec fn mul_req(self, other: Translation2<S>) -> bool {
        self@.can_add(other@)
    }

    open spec fn mul_spec(self, other: Translation2<S>) -> Translation2<S> {
        Translation2 { vector: self@.plus(other@) }
    }
}

/// A translation of space: the displacement by a fixed vector.
#[derive(Clone, Copy, Debug, PartialEq)]
pub struct Translation3<S> {
    pub vector: Vector3<S>,
}

impl<S: ScalarSigned> Translation3<S> {
    /// The displacement of the translation.
    pub open spec fn view(self) -> Vector3<S> {
        self.vector
    }

    /// The translation by the displacement with the given components.
    pub fn new(x: S, y: S, z: S) -> (r: Self)
        ensures
            r@ == (Vector3 { x, y, z }),
    {
        Translation3 { vector: Vector3::new(x, y, z) }
    }

    /// The translation by the displacement `vector`.
    pub fn from_vector(vector: &Vector3<S>) -> (r: Self)
        ensures
            r@ == *vector,
    {
        Translation3 { vector: *vector }
    }

    /// The translation that carries `vector1` to `vector2`.
    pub fn between_vectors(vector1: &Vector3<S>, vector2: &Vector3<S>) -> (r: Self)
        requires
            vector2.can_sub(*vector1),
        ensures
            r@ == vector2.minus(*vector1),
    {
        let distance = *vector2 - *vector1;
        Self::from_vector(&distance)
    }

    /// The translation that carries `point1` to `point2`.
    pub fn between_points(point1: &Point3<S>, point2: &Point3<S>) -> (r: Self)
        requires
            point2.can_sub(*point1),
        ensures
            r@ == point2.minus(*point1),
    {
        let distance = *point2 - *point1;
        Self::from_vector(&distance)
    }

    /// The translation by the opposite displacement.
    pub fn inverse(&self) -> (r: Self)
        requires
            self@.can_neg(),
        ensures
            r@ == self@.negated(),
    {
        let opposite = core::ops::Neg::neg(self.vector);
        Self::from_vector(&opposite)
    }

    /// Replaces the translation by its inverse.
    pub fn inverse_mut(&mut self)
        requires
            old(self)@.can_neg(),
        ensures
            final(self)@ == old(self)@.negated(),
    {
        self.vector.neg_mut();
    }

    /// Displaces a point.
    pub fn translate_point(&self, point: &Point3<S>) -> (r: Point3<S>)
        requires
            point.can_add_vector(self@),
        ensures
            r == point.plus_vector(self@),
    {
        *point + self.vector
    }

    /// Leaves a vector as it is: translations act on points only.
    pub fn translate_vector(&self, vector: &Vector3<S>) -> (r: Vector3<S>)
        ensures
            r == *vector,
    {
        *vector
    }

    /// Displaces a point by the opposite displacement.
    pub fn inverse_translate_point(&self, point: &Point3<S>) -> (r: Point3<S>)
        requires
            point.can_sub_vector(self@),
        ensures
            r == point.minus_vector(self@),
    {
        *point - self.vector
    }

    /// Leaves a vector as it is.
    pub fn inverse_translate_vector(&self, vector: &Vector3<S>) -> (r: Vector3<S>)
        ensures
            r == *vector,
    {
        *vector
    }

    /// The translation that displaces nothing.
    pub fn identity() -> (r: Self)
        ensures
            r@ == Vector3::<S>::zero_spec(),
    {
        Translation3 { vector: Vector3::zero() }
    }

    /// The translation as a general transformation, which holds its matrix.
    pub fn to_transform(&self) -> (r: Transform3<S>)
        ensures
            r@ == Matrix4x4::<S>::affine_translation_spec(self@),
    {
        Transform3::from_specialized(Matrix4x4::from_affine_translation(&self.vector))
    }

    /// The displacement of the translation.
    pub fn to_vector(&self) -> (r: Vector3<S>)
        ensures
            r == self@,
    {
        self.vector
    }

    /// The translation that displaces by `self` and then by `other`: the
    /// sum of the two displacements.
    pub fn compose(self, other: Translation3<S>) -> (r: Translation3<S>)
        requires
            self@.can_add(other@),
        ensures
            r@ == self@.plus(other@),
    {
        Translation3 { vector: self.vector + other.vector }
    }
}

impl<S: ScalarSigned> core::convert::From<Translation3<S>> for Matrix4x4<S> {
    fn from(transform: Translation3<S>) -> (r: Matrix4x4<S>) {
        Matrix4x4::from_affine_translation(&transform.vector)
    }
}

impl<S: ScalarSigned> vstd::std_specs::convert::FromSpecImpl<Translation3<S>> for Matrix4x4<S> {
    open spec fn obeys_from_spec() -> bool {
        true
    }

    open spec fn from_spec(transform: Translation3<S>) -> Matrix4x4<S> {
        Matrix4x4::<S>::affine_translation_spec(transform@)
    }
}

impl<S: ScalarSigned> core::ops::Mul<Point3<S>> for Translation3<S> {
    type Output = Point3<S>;

    fn mul(self, other: Point3<S>) -> (r: Point3<S>) {
        self.translate_point(&other)
    }
}

impl<S: ScalarSigned> vstd::std_specs::ops::MulSpecImpl<Point3<S>> for Translation3<S> {
    open spec fn obeys_mul_spec() -> bool {
        true
    }

    open spec fn mul_req(self, other: Point3<S>) -> bool {
        other.can_add_vector(self@)
    }

    open spec fn mul_spec(self, other: Point3<S>) -> Point3<S> {
        other.plus_vector(self@)
    }
}

impl<S: ScalarSigned> core::ops::Mul<Translation3<S>> for Translation3<S> {
    type Output = Translation3<S>;

    fn mul(self, other: Translation3<S>) -> (r: Translation3<S>) {
        self.compose(other)
    }
}

impl<S: ScalarSigned> vstd::std_specs::ops::MulSpecImpl<Translation3<S>> for Translation3<S> {
    open spec fn obeys_mul_spec() -> bool {
        true
    }

    open spec fn mul_req(self, other: Translation3<S>) -> bool {
        self@.can_add(other@)
    }

    open spec fn mul_spec(self, other: Translation3<S>) -> Translation3<S> {
        Translation3 { vector: self@.plus(other@) }
    }
}

} // verus!
