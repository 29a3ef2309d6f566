//! Isometries of the plane: a rotation followed by a translation.

use vstd::prelude::*;
use crate::angle::Radians;
use crate::matrix2x2::Matrix2x2;
use crate::matrix3x3::Matrix3x3;
use crate::point::Point2;
use crate::rotation::Rotation2;
use crate::scalar::{ScalarFloat, ScalarSigned};
use crate::transform::Transform2;
use crate::translation::Translation2;
use crate::vector::{Vector2, Vector3};

verus! {

/// An isometry of the plane: the rotation `rotation` about the origin
/// followed by the translation `translation`.
#[derive(Clone, Copy, Debug, PartialEq)]
pub struct Isometry2<S> {
    pub rotation: Rotation2<S>,
    pub translation: Translation2<S>,
}

impl<S: ScalarSigned> Isometry2<S> {
    /// The matrix of the isometry in homogeneous coordinates: the rotation
    /// in the upper left, the displacement in the last column.
    pub open spec fn affine_matrix_spec(self) -> Matrix3x3<S> {
        Matrix3x3 {
            c0: Vector3 { x: self.rotation@.c0.x, y: self.rotation@.c0.y, z: S::zero_spec() },
            c1: Vector3 { x: self.rotation@.c1.x, y: self.rotation@.c1.y, z: S::zero_spec() },
            c2: Vector3 { x: self.translation@.x, y: self.translation@.y, z: S::one_spec() },
        }
    }

    /// The isometry whose rotation and translation are each the inverse of
    /// that of `self`.
    pub open spec fn inverse_spec(self) -> Isometry2<S> {
        Isometry2 {
            rotation: self.rotation.inverse_spec(),
            translation: Translation2 { vector: self.translation@.negated() },
        }
    }

    /// True when the isometry can be applied to `point`.
    pub open spec fn can_transform_point(self, point: Point2<S>) -> bool {
        &&& self.rotation.can_rotate_vector(point.to_vector_spec())
        &&& self.rotation.rotate_point_spec(point).can_add_vector(self.translation@)
    }

    /// The image of `point`: the point turned, then displaced.
    pub open spec fn transform_point_spec(self, point: Point2<S>) -> Point2<S> {
        self.rotation.rotate_point_spec(point).plus_vector(self.translation@)
    }

    /// True when the inverse rotation and the inverse displacement can be
    /// applied to `point` in turn.
    pub open spec fn can_inverse_transform_point(self, point: Point2<S>) -> bool {
        &&& self.rotation.inverse_spec().can_rotate_vector(point.to_vector_spec())
        &&& self.rotation.inverse_spec().rotate_point_spec(point).can_sub_vector(self.translation@)
    }

    /// The point turned by the inverse rotation, then displaced against the translation.
    pub open spec fn inverse_transform_point_spec(self, point: Point2<S>) -> Point2<S> {
        self.rotation.inverse_spec().rotate_point_spec(point).minus_vector(self.translation@)
    }

    /// The isometry with the given translation and rotation.
    pub fn from_parts(translation: Translation2<S>, rotation: Rotation2<S>) -> (r: Isometry2<S>)
        ensures
            r == (Isometry2 { rotation, translation }),
    {
        Isometry2 { rotation, translation }
    }

    /// The isometry that only displaces.
    pub fn from_translation(translation: Translation2<S>) -> (r: Isometry2<S>)
        ensures
            r.translation == translation,
            r.rotation@ == Matrix2x2::<S>::identity_spec(),
    {
        Self::from_parts(translation, Rotation2::identity())
    }

    /// The isometry that only turns.
    pub fn from_rotation(rotation: Rotation2<S>) -> (r: Isometry2<S>)
        ensures
            r.rotation == rotation,
            r.translation@ == Vector2::<S>::zero_spec(),
    {
        Self::from_parts(Translation2::identity(), rotation)
    }

    /// The isometry as a general transformation.
    pub fn to_transform2d(&self) -> (r: Transform2<S>)
        ensures
            r@ == self.affine_matrix_spec(),
    {
        let matrix = self.to_affine_matrix();
        Transform2::from_specialized(matrix)
    }

    /// The matrix of the isometry in homogeneous coordinates.
    pub fn to_affine_matrix(&self) -> (r: Matrix3x3<S>)
        ensures
            r == self.affine_matrix_spec(),
    {
        let zero = S::zero();
        let one = S::one();
        let rotation_matrix = self.rotation.matrix();
        let translation = self.translation.to_vector();
        Matrix3x3::new(
            rotation_matrix.c0.x,
            rotation_matrix.c0.y,
            zero,
            rotation_matrix.c1.x,
            rotation_matrix.c1.y,
            zero,
            translation.x,
            translation.y,
            one,
        )
    }

    /// The rotation of the isometry.
    pub fn rotation(&self) -> (r: &Rotation2<S>)
        ensures
            *r == self.rotation,
    {
        &self.rotation
    }

    /// The translation of the isometry.
    pub fn translation(&self) -> (r: &Translation2<S>)
        ensures
            *r == self.translation,
    {
        &self.translation
    }

    /// The isometry made of the inverse rotation and the inverse translation.
    pub fn inverse(&self) -> (r: Isometry2<S>)
        requires
            self.translation@.can_neg(),
        ensures
            r == self.inverse_spec(),
    {
        Isometry2 { rotation: self.rotation.inverse(), translation: self.translation.inverse() }
    }

    /// Turns a point, then displaces it.
    pub fn transform_point(&self, point: &Point2<S>) -> (r: Point2<S>)
        requires
            self.can_transform_point(*point),
        ensures
            r == self.transform_point_spec(*point),
    {
        let rotated_point = self.rotation.rotate_point(point);
        self.translation.translate_point(&rotated_point)
    }

    /// Turns a vector; the translation leaves it as it is.
    pub fn transform_vector(&self, vector: &Vector2<S>) -> (r: Vector2<S>)
        requires
            self.rotation.can_rotate_vector(*vector),
        ensures
            r == self.rotation.rotate_vector_spec(*vector),
    {
        let rotated_vector = self.rotation.rotate_vector(vector);
        self.translation.translate_vector(&rotated_vector)
    }

    /// Turns a point by the inverse rotation, then displaces it against the translation.
    pub fn inverse_transform_point(&self, point: &Point2<S>) -> (r: Point2<S>)
        requires
            self.can_inverse_transform_point(*point),
        ensures
            r == self.inverse_transform_point_spec(*point),
    {
        let rotated_point = self.rotation.inverse_rotate_point(point);
        self.translation.inverse_translate_point(&rotated_point)
    }

    /// Turns a vector by the inverse rotation.
    pub fn inverse_transform_vector(&self, vector: &Vector2<S>) -> (r: Vector2<S>)
        requires
            self.rotation.inverse_spec().can_rotate_vector(*vector),
        ensures
            r == self.rotation.inverse_spec().rotate_vector_spec(*vector),
    {
        let rotated_vector = self.rotation.inverse_rotate_vector(vector);
        self.translation.inverse_translate_vector(&rotated_vector)
    }

    /// The isometry that changes nothing.
    pub fn identity() -> (r: Isometry2<S>)
        ensures
            r.rotation@ == Matrix2x2::<S>::identity_spec(),
            r.translation@ == Vector2::<S>::zero_spec(),
    {
        Isometry2 { rotation: Rotation2::identity(), translation: Translation2::identity() }
    }
}

impl<S: ScalarFloat> Isometry2<S> {
    /// The isometry that turns by `angle` and does not displace.
    pub fn from_angle(angle: Radians<S>) -> (r: Isometry2<S>)
        requires
            Matrix2x2::<S>::can_from_angle(angle),
        ensures
            r.rotation@ == Matrix2x2::<S>::angle_spec(angle),
            r.translation@ == Vector2::<S>::zero_spec(),
    {
        let translation = Translation2::identity();
        let rotation = Rotation2::from_angle(angle);
        Self::from_parts(translation, rotation)
    }
}

} // verus!
