//! Rotations of the plane.

use vstd::prelude::*;
use crate::angle::Radians;
use crate::matrix2x2::Matrix2x2;
use crate::point::Point2;
use crate::scalar::{Scalar, ScalarFloat, ScalarSigned};
use crate::vector::Vector2;

verus! {

/// A rotation of the plane about the origin, held as its matrix.
#[derive(Clone, Copy, Debug, PartialEq)]
pub struct Rotation2<S> {
    pub matrix: Matrix2x2<S>,
}

impl<S> View for Rotation2<S> {
    type V = Matrix2x2<S>;

    open spec fn view(&self) -> Matrix2x2<S> {
        self.matrix
    }
}

impl<S: Scalar> Rotation2<S> {
    /// True when the rotation can be applied to `vector`.
    pub open spec fn can_rotate_vector(self, vector: Vector2<S>) -> bool {
        self@.can_mul_vector(vector)
    }

    /// The image of `vector`: the matrix times the vector.
    pub open spec fn rotate_vector_spec(self, vector: Vector2<S>) -> Vector2<S> {
        self@.times_vector(vector)
    }

    /// The image of `point`: the point at the tip of the image of its vector.
    pub open spec fn rotate_point_spec(self, point: Point2<S>) -> Point2<S> {
        Point2::<S>::from_vector_spec(self@.times_vector(point.to_vector_spec()))
    }

    /// The inverse rotation: the one with the transposed matrix.
    pub open spec fn inverse_spec(self) -> Rotation2<S> {
        Rotation2 { matrix: self@.transposed() }
    }

    /// The rotation that turns nothing.
    pub fn identity() -> (r: Rotation2<S>)
        ensures
            r@ == Matrix2x2::<S>::identity_spec(),
    {
        Rotation2 { matrix: Matrix2x2::identity() }
    }

    /// The matrix of the rotation.
    pub fn matrix(&self) -> (r: &Matrix2x2<S>)
        ensures
            *r == self@,
    {
        &self.matrix
    }

    /// The inverse rotation.
    pub fn inverse(&self) -> (r: Rotation2<S>)
        ensures
            r == self.inverse_spec(),
    {
        Rotation2 { matrix: self.matrix.transpose() }
    }

    /// Turns a vector.
    pub fn rotate_vector(&self, vector: &Vector2<S>) -> (r: Vector2<S>)
        requires
            self.can_rotate_vector(*vector),
        ensures
            r == self.rotate_vector_spec(*vector),
    {
        self.matrix * *vector
    }

    /// Turns a point about the origin.
    pub fn rotate_point(&self, point: &Point2<S>) -> (r: Point2<S>)
        requires
            self.can_rotate_vector(point.to_vector_spec()),
        ensures
            r == self.rotate_point_spec(*point),
    {
        let image = self.matrix * point.to_vector();
        Point2::from_vector(&image)
    }

    /// Turns a vector by the inverse rotation.
    pub fn inverse_rotate_vector(&self, vector: &Vector2<S>) -> (r: Vector2<S>)
        requires
            self.inverse_spec().can_rotate_vector(*vector),
        ensures
            r == self.inverse_spec().rotate_vector_spec(*vector),
    {
        self.inverse().rotate_vector(vector)
    }

    /// Turns a point by the inverse rotation.
    pub fn inverse_rotate_point(&self, point: &Point2<S>) -> (r: Point2<S>)
        requires
            self.inverse_spec().can_rotate_vector(point.to_vector_spec()),
        ensures
            r == self.inverse_spec().rotate_point_spec(*point),
    {
        self.inverse().rotate_point(point)
    }
}

impl<S: ScalarSigned> Rotation2<S> {
    /// The rotation by the angle with the given cosine and sine.
    pub fn from_cos_sin(cosine: S, sine: S) -> (r: Rotation2<S>)
        requires
            Matrix2x2::<S>::can_from_cos_sin(cosine, sine),
        ensures
            r@ == Matrix2x2::<S>::cos_sin_spec(cosine, sine),
    {
        Rotation2 { matrix: Matrix2x2::from_cos_sin(cosine, sine) }
    }
}

impl<S: ScalarFloat> Rotation2<S> {
    /// The rotation by `angle`, counterclockwise.
    pub fn from_angle(angle: Radians<S>) -> (r: Rotation2<S>)
        requires
            Matrix2x2::<S>::can_from_angle(angle),
        ensures
            r@ == Matrix2x2::<S>::angle_spec(angle),
    {
        Rotation2 { matrix: Matrix2x2::from_angle(angle) }
    }
}

} // verus!
